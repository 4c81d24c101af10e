//! A title together with its namespace-prefixed spelling.
//!
//! The prefixed spelling depends on the namespace names of the wiki, which
//! only the wiki itself knows: whoever builds a [`FancyTitle`] brings it.
use vstd::prelude::*;
use vstd::string::*;
use crate::json::{members_view, JsonNumber, JsonNumberView, JsonValue, JsonView};
use crate::title::{Title, TitleView};

verus! {

/// What a [`FancyTitle`] stands for.
pub struct FancyTitleView {
    pub title: TitleView,
    pub prefixed_title: Seq<char>,
}

/// The JSON number of a signed integer.
pub open spec fn number_of_i64(n: i64) -> JsonNumberView {
    if n >= 0 {
        JsonNumberView::PosInt(n as u64)
    } else {
        JsonNumberView::NegInt(n)
    }
}

/// The three members that describe a title in a page document.
pub open spec fn title_members(title: TitleView, prefixed_title: Seq<char>) -> Seq<
    (Seq<char>, JsonView),
> {
    seq![
        ("title"@, JsonView::String(title.title)),
        ("prefixed_title"@, JsonView::String(prefixed_title)),
        ("namespace_id"@, JsonView::Number(number_of_i64(title.namespace_id))),
    ]
}

/// The prefixed spelling to use where the wiki may have none to offer: the
/// one it gave, or the empty string.
pub open spec fn prefixed_or_empty(full_pretty: Option<Seq<char>>) -> Seq<char> {
    match full_pretty {
        Some(p) => p,
        None => Seq::empty(),
    }
}

/// The JSON number of a signed integer.
pub fn json_number_of_i64(n: i64) -> (r: JsonNumber)
    ensures
        r@ == number_of_i64(n),
{
    if n >= 0 {
        JsonNumber::PosInt(n as u64)
    } else {
        JsonNumber::NegInt(n)
    }
}

/// The view of an optional string.
pub open spec fn option_view(s: Option<String>) -> Option<Seq<char>> {
    match s {
        Some(s) => Some(s@),
        None => None,
    }
}

/// A title and its namespace-prefixed spelling.
#[derive(Debug, PartialEq)]
pub struct FancyTitle {
    pub title: Title,
    pub prefixed_title: String,
}

impl View for FancyTitle {
    type V = FancyTitleView;

    open spec fn view(&self) -> FancyTitleView {
        FancyTitleView { title: self.title@, prefixed_title: self.prefixed_title@ }
    }
}

impl FancyTitle {
    /// The title `s` in namespace `ns`, with the prefixed spelling that the
    /// wiki gave for it (`None` where it knows no such namespace).
    pub fn new(s: &str, ns: i64, full_pretty: Option<String>) -> (r: FancyTitle)
        ensures
            r@.title == Title::new_spec(s@, ns),
            r@.prefixed_title == prefixed_or_empty(option_view(full_pretty)),
    {
        let title = Title::new(s, ns);
        let prefixed_title = match full_pretty {
            Some(p) => p,
            None => String::new(),
        };
        FancyTitle { title, prefixed_title }
    }

    /// A title that the wiki has parsed from a prefixed spelling, with the
    /// prefixed spelling that it gave back for it.
    pub fn from_prefixed(title: Title, full_pretty: Option<String>) -> (r: FancyTitle)
        ensures
            r@.title == title@,
            r@.prefixed_title == prefixed_or_empty(option_view(full_pretty)),
    {
        let prefixed_title = match full_pretty {
            Some(p) => p,
            None => String::new(),
        };
        FancyTitle { title, prefixed_title }
    }

    /// The object that describes the title in a page document: `title`,
    /// `prefixed_title` and `namespace_id`.
    pub fn to_json(&self) -> (r: JsonValue)
        ensures
            r@ == JsonView::Object(title_members(self@.title, self@.prefixed_title)),
    {
        let mut members: Vec<(String, JsonValue)> = Vec::new();
        members.push(("title".to_owned(), JsonValue::string(self.title.pretty())));
        members.push(
            ("prefixed_title".to_owned(), JsonValue::string(self.prefixed_title.as_str())),
        );
        members.push(
            (
                "namespace_id".to_owned(),
                JsonValue::Number(json_number_of_i64(self.title.namespace_id())),
            ),
        );
        let ghost listed = members_view(members@);
        let r = JsonValue::object(members);
        assert(listed =~= title_members(self@.title, self@.prefixed_title));
        r
    }
}

} // verus!
