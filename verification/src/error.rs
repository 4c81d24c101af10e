//! The failures that the library reports.
use vstd::prelude::*;
use vstd::string::*;

verus! {

/// A failure of one operation. No operation recovers from one: it hands the
/// failure to its caller.
#[derive(Debug)]
pub enum ToolsError {
    /// The tool's answer reports a failure, or the request cannot be built
    /// from the parameters that were set.
    Tool(String),
    /// The answer does not have the shape that the tool documents.
    Json(String),
    /// The answer is no table of separated values.
    Csv(csv::Error),
}

/// A failure that the reader of separated values reports.
#[verifier::external_type_specification]
#[verifier::external_body]
pub struct ExCsvError(csv::Error);

/// What a failure stands for: its kind and its message.
pub enum ToolsErrorView {
    Tool(Seq<char>),
    Json(Seq<char>),
    Csv,
}

/// The view of a failure.
pub open spec fn error_view(e: ToolsError) -> ToolsErrorView {
    match e {
        ToolsError::Tool(m) => ToolsErrorView::Tool(m@),
        ToolsError::Json(m) => ToolsErrorView::Json(m@),
        ToolsError::Csv(_) => ToolsErrorView::Csv,
    }
}

/// The words that the text of a failure starts with: they name its kind.
pub open spec fn error_prefix(e: ToolsError) -> Seq<char> {
    match e {
        ToolsError::Tool(_) => "Tool error: "@,
        ToolsError::Json(_) => "JSON error: "@,
        ToolsError::Csv(_) => "CSV error: "@,
    }
}

/// `csv::Error` as text, through its `Display`. Nothing is claimed of the text.
#[verifier::external_body]
fn csv_error_text(e: &csv::Error) -> String {
    e.to_string()
}

impl ToolsError {
    /// The text that describes this failure: its kind, then the message. The
    /// message of a failure of the reader of separated values is the reader's own.
    pub fn message(&self) -> (r: String)
        ensures
            match *self {
                ToolsError::Tool(m) => r@ == error_prefix(*self) + m@,
                ToolsError::Json(m) => r@ == error_prefix(*self) + m@,
                ToolsError::Csv(_) => r@.len() >= error_prefix(*self).len() && r@.take(
                    error_prefix(*self).len() as int,
                ) == error_prefix(*self),
            },
    {
        match self {
            ToolsError::Tool(m) => {
                let mut r = "Tool error: ".to_owned();
                r.append(m.as_str());
                r
            },
            ToolsError::Json(m) => {
                let mut r = "JSON error: ".to_owned();
                r.append(m.as_str());
                r
            },
            ToolsError::Csv(e) => {
                let mut r = "CSV error: ".to_owned();
                let ghost head = r@;
                r.append(csv_error_text(e).as_str());
                assert(r@.take(head.len() as int) =~= head);
                r
            },
        }
    }
}

} // verus!
