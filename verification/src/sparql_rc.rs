//! SparqlRC: recent changes to the Wikidata items that a SPARQL query selects.
use vstd::prelude::*;
use vstd::string::*;
use crate::dates::{compact_datetime_text, parsed_datetime, DateTime};
use crate::error::ToolsError;
use crate::fancy_title::option_view;
use crate::json::{decoded_rows, items_view, lemma_decoded_rows_step, JsonValue, JsonView};
use crate::text::{join, joined, pair, pairs_view, parse_u64, parse_u64_spec, str_eq, strings_view};

verus! {

/// What an [`EntityEditor`] stands for.
pub struct EntityEditorView {
    pub id: u64,
    pub name: Seq<char>,
    pub edits: u64,
}

/// A user who edited an item, and how often.
#[derive(Debug, Default, PartialEq)]
pub struct EntityEditor {
    pub id: u64,
    pub name: String,
    pub edits: u64,
}

impl View for EntityEditor {
    type V = EntityEditorView;

    open spec fn view(&self) -> EntityEditorView {
        EntityEditorView { id: self.id, name: self.name@, edits: self.edits }
    }
}

/// The editor that an entry gives: it has one where `user_id` is a string
/// that spells a number, `user_text` is a string and `edits` is a count.
pub open spec fn editor_of_entry(j: JsonView) -> Option<EntityEditorView> {
    match (j.at("user_id"@).as_str(), j.at("user_text"@).as_str(), j.at("edits"@).as_u64()) {
        (Some(id), Some(name), Some(edits)) => match parse_u64_spec(id) {
            Some(id) => Some(EntityEditorView { id, name, edits }),
            None => None,
        },
        _ => None,
    }
}

/// The editors that a value lists: those of its entries where it is an
/// array, none otherwise.
pub open spec fn editors_of(j: JsonView) -> Seq<EntityEditorView> {
    match j.as_array() {
        Some(entries) => decoded_rows(entries, |e: JsonView| editor_of_entry(e)),
        None => Seq::empty(),
    }
}

impl EntityEditor {
    /// Reads one editor.
    pub fn from_json(j: &JsonValue) -> (r: Option<Self>)
        ensures
            match r {
                Some(editor) => editor_of_entry(j@) == Some(editor@),
                None => editor_of_entry(j@) is None,
            },
    {
        let id = match j.str_at("user_id") {
            Some(text) => match parse_u64(text) {
                Some(id) => id,
                None => { return None; },
            },
            None => { return None; },
        };
        let name = match j.str_at("user_text") {
            Some(name) => name,
            None => { return None; },
        };
        let edits = match j.u64_at("edits") {
            Some(edits) => edits,
            None => { return None; },
        };
        Some(EntityEditor { id, name: name.to_owned(), edits })
    }
}

/// What an [`EntityEdit`] stands for.
pub struct EntityEditView {
    pub id: Seq<char>,
    pub label: Seq<char>,
    pub comment: Option<Seq<char>>,
    pub msg: Option<Seq<char>>,
    pub diff_html: Option<Seq<char>>,
    pub editors: Seq<EntityEditorView>,
    pub ts_before: DateTime,
    pub ts_after: DateTime,
    pub changed: bool,
    pub created: bool,
    pub reverted: bool,
}

/// The changes to one item over the span of the query.
#[derive(Debug, PartialEq)]
pub struct EntityEdit {
    pub id: String,
    pub label: String,
    pub comment: Option<String>,
    pub msg: Option<String>,
    pub diff_html: Option<String>,
    pub editors: Vec<EntityEditor>,
    pub ts_before: DateTime,
    pub ts_after: DateTime,
    pub changed: bool,
    pub created: bool,
    pub reverted: bool,
}

impl View for EntityEdit {
    type V = EntityEditView;

    open spec fn view(&self) -> EntityEditView {
        EntityEditView {
            id: self.id@,
            label: self.label@,
            comment: option_view(self.comment),
            msg: option_view(self.msg),
            diff_html: option_view(self.diff_html),
            editors: self.editors@.map_values(|e: EntityEditor| e@),
            ts_before: self.ts_before,
            ts_after: self.ts_after,
            changed: self.changed,
            created: self.created,
            reverted: self.reverted,
        }
    }
}

/// The format in which the tool spells a point in time.
pub open spec fn timestamp_format() -> Seq<char> {
    "%Y%m%d%H%M%S"@
}

/// The point in time that a value spells: it has to be a string in the
/// tool's format.
pub open spec fn date_of(j: JsonView) -> Option<DateTime> {
    match j.as_str() {
        Some(text) => parsed_datetime(text, timestamp_format()),
        None => None,
    }
}

/// A flag of an entry: the boolean under `key`, false where there is none.
pub open spec fn flag_at(j: JsonView, key: Seq<char>) -> bool {
    match j.at(key).as_bool() {
        Some(b) => b,
        None => false,
    }
}

/// The change that an entry gives once its two points in time have been
/// read: it has one where `id` and `label` are strings and both points in
/// time are there.
pub open spec fn edit_with_dates(
    j: JsonView,
    ts_before: Option<DateTime>,
    ts_after: Option<DateTime>,
) -> Option<EntityEditView> {
    match (j.at("id"@).as_str(), j.at("label"@).as_str(), ts_before, ts_after) {
        (Some(id), Some(label), Some(ts_before), Some(ts_after)) => Some(
            EntityEditView {
                id,
                label,
                comment: j.at("comment"@).as_str(),
                msg: j.at("msg"@).as_str(),
                diff_html: j.at("diff"@).as_str(),
                editors: editors_of(j.at("editors"@)),
                ts_before,
                ts_after,
                changed: flag_at(j, "changed"@),
                created: flag_at(j, "created"@),
                reverted: flag_at(j, "reverted"@),
            },
        ),
        _ => None,
    }
}

/// The change that an entry of the answer gives.
pub open spec fn edit_of_entry(j: JsonView) -> Option<EntityEditView> {
    edit_with_dates(j, date_of(j.at("ts_before"@)), date_of(j.at("ts_after"@)))
}

fn owned(s: Option<&str>) -> (r: Option<String>)
    ensures
        match s {
            Some(s) => r matches Some(t) && t@ == s@,
            None => r is None,
        },
{
    match s {
        Some(s) => Some(s.to_owned()),
        None => None,
    }
}

impl EntityEdit {
    /// The point in time that the member `key` of an entry spells.
    pub fn parse_date(j: &JsonValue, key: &str) -> (r: Option<DateTime>)
        ensures
            r == date_of(j@.at(key@)),
    {
        match j.str_at(key) {
            Some(text) => DateTime::parse_from_str(text, "%Y%m%d%H%M%S"),
            None => None,
        }
    }

    /// The editors that the member `key` of an entry lists.
    pub fn parse_editors(j: &JsonValue, key: &str) -> (r: Vec<EntityEditor>)
        ensures
            r@.map_values(|e: EntityEditor| e@) == editors_of(j@.at(key@)),
    {
        let mut editors: Vec<EntityEditor> = Vec::new();
        assert(editors@.map_values(|e: EntityEditor| e@) =~= Seq::empty());
        let entries = match j.array_at(key) {
            Some(entries) => entries,
            None => { return editors; },
        };
        let ghost all = items_view(entries@);
        let ghost decode = |e: JsonView| editor_of_entry(e);
        let mut i: usize = 0;
        assert(all.take(0) =~= Seq::<JsonView>::empty());
        while i < entries.len()
            invariant
                i <= entries.len(),
                all == items_view(entries@),
                decode == |e: JsonView| editor_of_entry(e),
                editors@.map_values(|e: EntityEditor| e@) == decoded_rows(
                    all.take(i as int),
                    decode,
                ),
            decreases entries.len() - i,
        {
            proof {
                lemma_decoded_rows_step(all, decode, i as int);
            }
            let ghost so_far = editors@.map_values(|e: EntityEditor| e@);
            match EntityEditor::from_json(&entries[i]) {
                Some(editor) => {
                    let ghost view = editor@;
                    editors.push(editor);
                    assert(editors@.map_values(|e: EntityEditor| e@) =~= so_far.push(view));
                },
                None => {},
            }
            i = i + 1;
        }
        assert(all.take(i as int) =~= all);
        editors
    }

    /// The change of an entry whose two points in time have been read already.
    pub fn with_dates(j: &JsonValue, ts_before: Option<DateTime>, ts_after: Option<DateTime>) -> (r:
        Option<Self>)
        ensures
            match r {
                Some(edit) => edit_with_dates(j@, ts_before, ts_after) == Some(edit@),
                None => edit_with_dates(j@, ts_before, ts_after) is None,
            },
    {
        let id = match j.str_at("id") {
            Some(id) => id,
            None => { return None; },
        };
        let label = match j.str_at("label") {
            Some(label) => label,
            None => { return None; },
        };
        let ts_before = match ts_before {
            Some(t) => t,
            None => { return None; },
        };
        let ts_after = match ts_after {
            Some(t) => t,
            None => { return None; },
        };
        Some(
            EntityEdit {
                id: id.to_owned(),
                label: label.to_owned(),
                comment: owned(j.str_at("comment")),
                msg: owned(j.str_at("msg")),
                diff_html: owned(j.str_at("diff")),
                editors: Self::parse_editors(j, "editors"),
                ts_before,
                ts_after,
                changed: match j.bool_at("changed") {
                    Some(b) => b,
                    None => false,
                },
                created: match j.bool_at("created") {
                    Some(b) => b,
                    None => false,
                },
                reverted: match j.bool_at("reverted") {
                    Some(b) => b,
                    None => false,
                },
            },
        )
    }

    /// Reads one entry of the answer.
    pub fn from_json(j: &JsonValue) -> (r: Option<Self>)
        ensures
            match r {
                Some(edit) => edit_of_entry(j@) == Some(edit@),
                None => edit_of_entry(j@) is None,
            },
    {
        let ts_before = Self::parse_date(j, "ts_before");
        let ts_after = Self::parse_date(j, "ts_after");
        Self::with_dates(j, ts_before, ts_after)
    }
}

/// What a [`SparqlRC`] stands for.
pub struct SparqlRCView {
    pub sparql: Seq<char>,
    pub start: Option<DateTime>,
    pub end: Option<DateTime>,
    pub languages: Seq<Seq<char>>,
    pub no_bot_edits: bool,
    pub skip_unchanged: bool,
    pub tool_url: Seq<char>,
    pub results: Seq<EntityEditView>,
}

/// A query for the changes to the items that a SPARQL query selects. The
/// first variable of the SPARQL query has to be the item, named `?q`.
#[derive(Debug, PartialEq)]
pub struct SparqlRC {
    sparql: String,
    start: Option<DateTime>,
    end: Option<DateTime>,
    languages: Vec<String>,
    no_bot_edits: bool,
    skip_unchanged: bool,
    tool_url: String,
    results: Vec<EntityEdit>,
}

impl View for SparqlRC {
    type V = SparqlRCView;

    closed spec fn view(&self) -> SparqlRCView {
        SparqlRCView {
            sparql: self.sparql@,
            start: self.start,
            end: self.end,
            languages: strings_view(self.languages@),
            no_bot_edits: self.no_bot_edits,
            skip_unchanged: self.skip_unchanged,
            tool_url: self.tool_url@,
            results: self.results@.map_values(|e: EntityEdit| e@),
        }
    }
}

/// A point in time as a parameter: fourteen digits, or nothing where it is not set.
pub open spec fn date_text(dt: Option<DateTime>) -> Seq<char> {
    match dt {
        Some(d) => compact_datetime_text(d),
        None => Seq::empty(),
    }
}

/// `"1"` for true, `"0"` for false.
pub open spec fn bit(b: bool) -> Seq<char> {
    if b {
        "1"@
    } else {
        "0"@
    }
}

/// The parameters of the request.
pub open spec fn rc_parameters(q: SparqlRCView) -> Seq<(Seq<char>, Seq<char>)> {
    seq![
        ("sparql"@, q.sparql),
        ("start"@, date_text(q.start)),
        ("end"@, date_text(q.end)),
        ("user_lang"@, joined(q.languages, ","@)),
        ("no_bots"@, bit(q.no_bot_edits)),
        ("skip_unchanged"@, bit(q.skip_unchanged)),
        ("format"@, "json"@),
    ]
}

impl SparqlRC {
    /// A query for the items that `sparql` selects, with no span set yet.
    pub fn new(sparql: &str) -> (r: Self)
        ensures
            r@ == (SparqlRCView {
                sparql: sparql@,
                start: None,
                end: None,
                languages: Seq::empty(),
                no_bot_edits: false,
                skip_unchanged: false,
                tool_url: "https://wikidata-todo.toolforge.org/sparql_rc.php"@,
                results: Seq::empty(),
            }),
    {
        let r = SparqlRC {
            sparql: sparql.to_owned(),
            start: None,
            end: None,
            languages: Vec::new(),
            no_bot_edits: false,
            skip_unchanged: false,
            tool_url: "https://wikidata-todo.toolforge.org/sparql_rc.php".to_owned(),
            results: Vec::new(),
        };
        assert(strings_view(r.languages@) =~= Seq::empty());
        assert(r.results@.map_values(|e: EntityEdit| e@) =~= Seq::empty());
        r
    }

    /// Sets the start of the span. A query cannot run without one.
    pub fn start(self, start: DateTime) -> (r: Self)
        ensures
            r@ == (SparqlRCView { start: Some(start), ..self@ }),
    {
        let mut r = self;
        r.start = Some(start);
        r
    }

    /// Sets the end of the span.
    pub fn end(self, end: DateTime) -> (r: Self)
        ensures
            r@ == (SparqlRCView { end: Some(end), ..self@ }),
    {
        let mut r = self;
        r.end = Some(end);
        r
    }

    /// Sends the query to another address than the tool's own.
    pub fn with_tool_url(self, tool_url: &str) -> (r: Self)
        ensures
            r@ == (SparqlRCView { tool_url: tool_url@, ..self@ }),
    {
        let mut r = self;
        r.tool_url = tool_url.to_owned();
        r
    }

    /// The address that the query is sent to.
    pub fn tool_url(&self) -> (r: &str)
        ensures
            r@ == self@.tool_url,
    {
        self.tool_url.as_str()
    }

    /// A point in time as a parameter.
    pub fn date2string(dt: &Option<DateTime>) -> (r: String)
        ensures
            r@ == date_text(*dt),
    {
        match dt {
            Some(d) => d.to_compact(),
            None => String::new(),
        }
    }

    /// The parameters of the request.
    pub fn generate_paramters(&self) -> (r: Result<Vec<(String, String)>, ToolsError>)
        ensures
            r matches Ok(p) && pairs_view(p@) == rc_parameters(self@),
    {
        let mut p: Vec<(String, String)> = Vec::new();
        p.push(pair("sparql", self.sparql.as_str()));
        p.push(pair("start", Self::date2string(&self.start).as_str()));
        p.push(pair("end", Self::date2string(&self.end).as_str()));
        p.push(pair("user_lang", join(&self.languages, ",").as_str()));
        p.push(pair("no_bots", if self.no_bot_edits { "1" } else { "0" }));
        p.push(pair("skip_unchanged", if self.skip_unchanged { "1" } else { "0" }));
        p.push(pair("format", "json"));
        assert(pairs_view(p@) =~= rc_parameters(self@));
        Ok(p)
    }

    /// Whether the query can run: it needs the start of the span.
    pub fn check_start_date(&self) -> (r: Result<(), ToolsError>)
        ensures
            match self@.start {
                Some(_) => r is Ok,
                None => r matches Err(ToolsError::Tool(m)) && m@
                    == "SparqlRC start date is not set"@,
            },
    {
        match self.start {
            Some(_) => Ok(()),
            None => Err(ToolsError::Tool("SparqlRC start date is not set".to_owned())),
        }
    }

    /// Reads the answer of the tool. Its `status` has to be `OK` and its
    /// `items` an array; the changes of the entries replace the results, an
    /// entry that gives none is passed over. A failure leaves the query as
    /// it is.
    pub fn from_json(&mut self, j: &JsonValue) -> (r: Result<(), ToolsError>)
        ensures
            if j@.at("status"@).as_str() != Some("OK"@) {
                r matches Err(ToolsError::Tool(m)) && m@ == "SparqlRC status is not OK"@
                    && final(self)@ == old(self)@
            } else {
                match j@.at("items"@).as_array() {
                    None => r matches Err(ToolsError::Json(m)) && m@ == "['items'] has no array"@
                        && final(self)@ == old(self)@,
                    Some(entries) => r is Ok && final(self)@ == (SparqlRCView {
                        results: decoded_rows(entries, |e: JsonView| edit_of_entry(e)),
                        ..old(self)@
                    }),
                }
            },
    {
        let ok = match j.str_at("status") {
            Some(status) => str_eq(status, "OK"),
            None => false,
        };
        if !ok {
            return Err(ToolsError::Tool("SparqlRC status is not OK".to_owned()));
        }
        let entries = match j.array_at("items") {
            Some(entries) => entries,
            None => { return Err(ToolsError::Json("['items'] has no array".to_owned())); },
        };
        let ghost all = items_view(entries@);
        let ghost decode = |e: JsonView| edit_of_entry(e);
        let mut results: Vec<EntityEdit> = Vec::new();
        let mut i: usize = 0;
        assert(all.take(0) =~= Seq::<JsonView>::empty());
        assert(results@.map_values(|e: EntityEdit| e@) =~= Seq::empty());
        while i < entries.len()
            invariant
                i <= entries.len(),
                all == items_view(entries@),
                decode == |e: JsonView| edit_of_entry(e),
                results@.map_values(|e: EntityEdit| e@) == decoded_rows(all.take(i as int), decode),
            decreases entries.len() - i,
        {
            proof {
                lemma_decoded_rows_step(all, decode, i as int);
            }
            let ghost so_far = results@.map_values(|e: EntityEdit| e@);
            match EntityEdit::from_json(&entries[i]) {
                Some(edit) => {
                    let ghost view = edit@;
                    results.push(edit);
                    assert(results@.map_values(|e: EntityEdit| e@) =~= so_far.push(view));
                },
                None => {},
            }
            i = i + 1;
        }
        assert(all.take(i as int) =~= all);
        self.results = results;
        Ok(())
    }

    /// The changes read last.
    pub fn results(&self) -> (r: &[EntityEdit])
        ensures
            r@.map_values(|e: EntityEdit| e@) == self@.results,
    {
        self.results.as_slice()
    }
}

} // verus!
