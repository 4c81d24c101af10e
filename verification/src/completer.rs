//! The Completer tool: articles of one Wikipedia that another one lacks.
use vstd::prelude::*;
use vstd::string::*;
use crate::error::ToolsError;
use crate::json::{
    decoded_rows, items_view, lemma_decoded_rows_step, members_view, JsonNumberView, JsonValue,
    JsonView,
};

verus! {

/// What a [`CompleterFilter`] stands for.
pub enum CompleterFilterView {
    Category { category: Seq<char>, depth: u32 },
    PetScan { psid: Seq<char> },
    Template { template: Seq<char> },
}

/// A restriction of the articles that Completer looks at: a category with a
/// depth, the result of a PetScan query, or a template. Categories and
/// templates are named without their namespace prefix.
#[derive(Debug, PartialEq)]
pub enum CompleterFilter {
    Category { category: String, depth: u32 },
    PetScan { psid: String },
    Template { template: String },
}

impl View for CompleterFilter {
    type V = CompleterFilterView;

    open spec fn view(&self) -> CompleterFilterView {
        match self {
            CompleterFilter::Category { category, depth } => CompleterFilterView::Category {
                category: category@,
                depth: *depth,
            },
            CompleterFilter::PetScan { psid } => CompleterFilterView::PetScan { psid: psid@ },
            CompleterFilter::Template { template } => CompleterFilterView::Template {
                template: template@,
            },
        }
    }
}

/// An object with the two members `type` and `specific`.
pub open spec fn filter_object(kind: Seq<char>, specific: Seq<(Seq<char>, JsonView)>) -> JsonView {
    JsonView::Object(seq![("type"@, JsonView::String(kind)), ("specific"@, JsonView::Object(specific))])
}

/// The object that describes a filter in a request.
pub open spec fn filter_document(filter: CompleterFilterView) -> JsonView {
    match filter {
        CompleterFilterView::Category { category, depth } => filter_object(
            "category"@,
            seq![
                ("title"@, JsonView::String(category)),
                ("depth"@, JsonView::Number(JsonNumberView::PosInt(depth as u64))),
                ("talk"@, JsonView::Bool(false)),
            ],
        ),
        CompleterFilterView::PetScan { psid } => filter_object(
            "petscan"@,
            seq![("id"@, JsonView::String(psid))],
        ),
        CompleterFilterView::Template { template } => filter_object(
            "template"@,
            seq![("title"@, JsonView::String(template)), ("talk"@, JsonView::Bool(false))],
        ),
    }
}

fn make_filter_object(kind: &str, specific: Vec<(String, JsonValue)>) -> (r: JsonValue)
    ensures
        r@ == filter_object(kind@, members_view(specific@)),
{
    let ghost inner = members_view(specific@);
    let mut members: Vec<(String, JsonValue)> = Vec::new();
    members.push(("type".to_owned(), JsonValue::string(kind)));
    members.push(("specific".to_owned(), JsonValue::object(specific)));
    let ghost listed = members_view(members@);
    let r = JsonValue::object(members);
    assert(listed =~= seq![
        ("type"@, JsonView::String(kind@)),
        ("specific"@, JsonView::Object(inner)),
    ]);
    r
}

impl CompleterFilter {
    /// The object that describes the filter in a request.
    pub fn to_json(&self) -> (r: JsonValue)
        ensures
            r@ == filter_document(self@),
    {
        let mut specific: Vec<(String, JsonValue)> = Vec::new();
        match self {
            CompleterFilter::Category { category, depth } => {
                specific.push(("title".to_owned(), JsonValue::string(category.as_str())));
                specific.push(("depth".to_owned(), JsonValue::unsigned(*depth as u64)));
                specific.push(("talk".to_owned(), JsonValue::boolean(false)));
                assert(members_view(specific@) =~= seq![
                    ("title"@, JsonView::String(category@)),
                    ("depth"@, JsonView::Number(JsonNumberView::PosInt(*depth as u64))),
                    ("talk"@, JsonView::Bool(false)),
                ]);
                make_filter_object("category", specific)
            },
            CompleterFilter::PetScan { psid } => {
                specific.push(("id".to_owned(), JsonValue::string(psid.as_str())));
                assert(members_view(specific@) =~= seq![("id"@, JsonView::String(psid@))]);
                make_filter_object("petscan", specific)
            },
            CompleterFilter::Template { template } => {
                specific.push(("title".to_owned(), JsonValue::string(template.as_str())));
                specific.push(("talk".to_owned(), JsonValue::boolean(false)));
                assert(members_view(specific@) =~= seq![
                    ("title"@, JsonView::String(template@)),
                    ("talk"@, JsonView::Bool(false)),
                ]);
                make_filter_object("template", specific)
            },
        }
    }
}

/// What a [`Completer`] stands for.
pub struct CompleterView {
    pub lang_from: Seq<char>,
    pub lang_to: Seq<char>,
    pub filters: Seq<CompleterFilterView>,
    pub ignore_cache: bool,
    pub id: u64,
    pub results: Seq<(Seq<char>, u64)>,
    pub tool_url: Seq<char>,
}

/// A query for the articles of the Wikipedia `lang_from` that the Wikipedia
/// `lang_to` lacks.
#[derive(Debug, Default, PartialEq)]
pub struct Completer {
    lang_from: String,
    lang_to: String,
    filters: Vec<CompleterFilter>,
    ignore_cache: bool,
    id: u64,
    results: Vec<(String, u64)>,
    tool_url: String,
}

impl View for Completer {
    type V = CompleterView;

    closed spec fn view(&self) -> CompleterView {
        CompleterView {
            lang_from: self.lang_from@,
            lang_to: self.lang_to@,
            filters: self.filters@.map_values(|f: CompleterFilter| f@),
            ignore_cache: self.ignore_cache,
            id: self.id,
            results: self.results@.map_values(|r: (String, u64)| (r.0@, r.1)),
            tool_url: self.tool_url@,
        }
    }
}

/// The row that an entry of the answer gives: it has one where the entry is
/// an array that starts with a string and a non-negative integer.
pub open spec fn result_of_entry(entry: JsonView) -> Option<(Seq<char>, u64)> {
    match entry.as_array() {
        Some(items) => if items.len() >= 2 {
            match (items[0].as_str(), items[1].as_u64()) {
                (Some(title), Some(count)) => Some((title, count)),
                _ => None,
            }
        } else {
            None
        },
        None => None,
    }
}

/// The body of the request that a query posts.
pub open spec fn payload_document(query: CompleterView) -> JsonView {
    JsonView::Object(
        seq![
            (
                "info"@,
                JsonView::Object(
                    seq![
                        ("from"@, JsonView::String(query.lang_from)),
                        ("to"@, JsonView::String(query.lang_to)),
                        ("ignoreCache"@, JsonView::Bool(query.ignore_cache)),
                        (
                            "filters"@,
                            JsonView::Array(
                                query.filters.map_values(|f: CompleterFilterView| filter_document(f)),
                            ),
                        ),
                    ],
                ),
            ),
        ],
    )
}

impl Completer {
    /// A query for the articles of the Wikipedia with the language code
    /// `lang_from` that are missing on the one with the code `lang_to`.
    pub fn new(lang_from: &str, lang_to: &str) -> (r: Completer)
        ensures
            r@ == (CompleterView {
                lang_from: lang_from@,
                lang_to: lang_to@,
                filters: Seq::empty(),
                ignore_cache: false,
                id: 0,
                results: Seq::empty(),
                tool_url: "https://completer.toolforge.org/data"@,
            }),
    {
        let r = Completer {
            lang_from: lang_from.to_owned(),
            lang_to: lang_to.to_owned(),
            filters: Vec::new(),
            ignore_cache: false,
            id: 0,
            results: Vec::new(),
            tool_url: "https://completer.toolforge.org/data".to_owned(),
        };
        assert(r.filters@.map_values(|f: CompleterFilter| f@) =~= Seq::empty());
        assert(r.results@.map_values(|r: (String, u64)| (r.0@, r.1)) =~= Seq::empty());
        r
    }

    /// Adds a filter to the query.
    pub fn filter(self, filter: CompleterFilter) -> (r: Self)
        ensures
            r@ == (CompleterView { filters: self@.filters.push(filter@), ..self@ }),
    {
        let mut r = self;
        r.filters.push(filter);
        assert(r.filters@.map_values(|f: CompleterFilter| f@) =~= self@.filters.push(filter@));
        r
    }

    /// Tells the tool not to answer from its cache.
    pub fn ignore_cache(self) -> (r: Self)
        ensures
            r@ == (CompleterView { ignore_cache: true, ..self@ }),
    {
        let mut r = self;
        r.ignore_cache = true;
        r
    }

    /// Sends the query to another address than the tool's own.
    pub fn with_tool_url(self, tool_url: &str) -> (r: Self)
        ensures
            r@ == (CompleterView { tool_url: tool_url@, ..self@ }),
    {
        let mut r = self;
        r.tool_url = tool_url.to_owned();
        r
    }

    /// The number that the tool gave the query.
    pub fn id(&self) -> (r: u64)
        ensures
            r == self@.id,
    {
        self.id
    }

    /// The rows read last: a title and how often it is wanted.
    pub fn results(&self) -> (r: &[(String, u64)])
        ensures
            r@.map_values(|r: (String, u64)| (r.0@, r.1)) == self@.results,
    {
        self.results.as_slice()
    }

    /// The address that the query is posted to.
    pub fn tool_url(&self) -> (r: &str)
        ensures
            r@ == self@.tool_url,
    {
        self.tool_url.as_str()
    }

    /// The body of the request.
    pub fn generate_payload(&self) -> (r: JsonValue)
        ensures
            r@ == payload_document(self@),
    {
        let mut filters: Vec<JsonValue> = Vec::new();
        let mut i: usize = 0;
        while i < self.filters.len()
            invariant
                i <= self.filters.len(),
                filters@.len() == i,
                forall|k: int| 0 <= k < i ==> (#[trigger] filters@[k])@ == filter_document(
                    self.filters@[k]@,
                ),
            decreases self.filters.len() - i,
        {
            filters.push(self.filters[i].to_json());
            i = i + 1;
        }
        assert(items_view(filters@) =~= self@.filters.map_values(
            |f: CompleterFilterView| filter_document(f),
        ));
        let mut info: Vec<(String, JsonValue)> = Vec::new();
        info.push(("from".to_owned(), JsonValue::string(self.lang_from.as_str())));
        info.push(("to".to_owned(), JsonValue::string(self.lang_to.as_str())));
        info.push(("ignoreCache".to_owned(), JsonValue::boolean(self.ignore_cache)));
        info.push(("filters".to_owned(), JsonValue::array(filters)));
        let ghost inner = members_view(info@);
        let mut members: Vec<(String, JsonValue)> = Vec::new();
        members.push(("info".to_owned(), JsonValue::object(info)));
        let ghost outer = members_view(members@);
        let r = JsonValue::object(members);
        proof {
            let wanted = payload_document(self@)->Object_0;
            assert(inner =~= wanted[0].1->Object_0);
            assert(outer =~= wanted);
        }
        r
    }

    /// Reads the answer of the tool. It has to report `success`, to carry the
    /// number of the query under `meta.id` and an array under `data`. The
    /// number is taken first, so it is also kept where `data` is missing.
    /// The rows of `data` replace the results; an entry that is no row is
    /// passed over.
    pub fn from_json(&mut self, j: &JsonValue) -> (r: Result<(), ToolsError>)
        ensures
            if j@.at("success"@).as_bool() != Some(true) {
                r matches Err(ToolsError::Tool(m)) && m@ == "Completer has failed"@ && final(self)@
                    == old(self)@
            } else {
                match j@.at("meta"@).at("id"@).as_u64() {
                    None => r matches Err(ToolsError::Tool(m)) && m@ == "No ID"@ && final(self)@
                        == old(self)@,
                    Some(id) => match j@.at("data"@).as_array() {
                        None => r matches Err(ToolsError::Json(m)) && m@ == "['data'] has no array"@
                            && final(self)@ == (CompleterView { id, ..old(self)@ }),
                        Some(entries) => r is Ok && final(self)@ == (CompleterView {
                            id,
                            results: decoded_rows(entries, |e: JsonView| result_of_entry(e)),
                            ..old(self)@
                        }),
                    },
                }
            },
    {
        match j.bool_at("success") {
            Some(true) => {},
            _ => { return Err(ToolsError::Tool("Completer has failed".to_owned())); },
        }
        let id = match j.get("meta") {
            Some(meta) => meta.u64_at("id"),
            None => None,
        };
        let id = match id {
            Some(id) => id,
            None => { return Err(ToolsError::Tool("No ID".to_owned())); },
        };
        self.id = id;
        let entries = match j.array_at("data") {
            Some(entries) => entries,
            None => { return Err(ToolsError::Json("['data'] has no array".to_owned())); },
        };
        let ghost all = items_view(entries@);
        let ghost decode = |e: JsonView| result_of_entry(e);
        let mut results: Vec<(String, u64)> = Vec::new();
        let mut i: usize = 0;
        assert(all.take(0) =~= Seq::<JsonView>::empty());
        while i < entries.len()
            invariant
                i <= entries.len(),
                all == items_view(entries@),
                decode == |e: JsonView| result_of_entry(e),
                results@.map_values(|r: (String, u64)| (r.0@, r.1)) == decoded_rows(
                    all.take(i as int),
                    decode,
                ),
            decreases entries.len() - i,
        {
            proof {
                lemma_decoded_rows_step(all, decode, i as int);
            }
            let ghost so_far = results@.map_values(|r: (String, u64)| (r.0@, r.1));
            let entry = &entries[i];
            i = i + 1;
            let items = match entry.as_array() {
                Some(items) => items,
                None => { continue; },
            };
            if items.len() < 2 {
                continue;
            }
            let title = match items[0].as_str() {
                Some(t) => t,
                None => { continue; },
            };
            let count = match items[1].as_u64() {
                Some(n) => n,
                None => { continue; },
            };
            results.push((title.to_owned(), count));
            assert(results@.map_values(|r: (String, u64)| (r.0@, r.1)) =~= so_far.push(
                (title@, count),
            ));
        }
        assert(all.take(i as int) =~= all);
        self.results = results;
        Ok(())
    }
}

} // verus!
