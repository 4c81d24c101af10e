//! The Duplicity tool: pages of a wiki that have no Wikidata item yet.
use vstd::prelude::*;
use vstd::string::*;
use crate::dates::{parsed_datetime, DateTime};
use crate::error::ToolsError;
use crate::json::{decoded_rows, items_view, lemma_decoded_rows_step, JsonValue, JsonView};
use crate::site::{Site, SiteView};
use crate::text::{pair, pairs_view, parse_u64, parse_u64_spec, str_eq};

verus! {

/// What a [`DuplicityResult`] stands for.
pub struct DuplicityResultView {
    pub title: Seq<char>,
    pub creation_date: DateTime,
}

/// A page without an item, and when the page was created.
#[derive(Debug, PartialEq)]
pub struct DuplicityResult {
    pub title: String,
    pub creation_date: DateTime,
}

impl View for DuplicityResult {
    type V = DuplicityResultView;

    open spec fn view(&self) -> DuplicityResultView {
        DuplicityResultView { title: self.title@, creation_date: self.creation_date }
    }
}

/// The format in which the tool spells the creation date.
pub open spec fn creation_date_format() -> Seq<char> {
    "%Y%m%d%H%M%S"@
}

/// The row that an entry of the answer gives, or the message that tells
/// what is wrong with the entry.
pub open spec fn result_of_entry(j: JsonView) -> Result<DuplicityResultView, Seq<char>> {
    match j.at("title"@).as_str() {
        None => Err("DuplicityResult title is not a string"@),
        Some(title) => match j.at("creation_date"@).as_str() {
            None => Err("DuplicityResult creation_date is not a string"@),
            Some(text) => match parsed_datetime(text, creation_date_format()) {
                None => Err("DuplicityResult creation_date parse error"@),
                Some(creation_date) => Ok(DuplicityResultView { title, creation_date }),
            },
        },
    }
}

/// The row that an entry gives once its creation date has been read:
/// `creation_date` is what reading the entry's `creation_date` string gave.
pub open spec fn result_with_date(j: JsonView, creation_date: Option<DateTime>) -> Result<
    DuplicityResultView,
    Seq<char>,
> {
    match j.at("title"@).as_str() {
        None => Err("DuplicityResult title is not a string"@),
        Some(title) => match j.at("creation_date"@).as_str() {
            None => Err("DuplicityResult creation_date is not a string"@),
            Some(_) => match creation_date {
                None => Err("DuplicityResult creation_date parse error"@),
                Some(creation_date) => Ok(DuplicityResultView { title, creation_date }),
            },
        },
    }
}

/// The rows of all entries, or the message of the first entry that gives none.
pub open spec fn results_of_entries(entries: Seq<JsonView>) -> Result<
    Seq<DuplicityResultView>,
    Seq<char>,
>
    decreases entries.len(),
{
    if entries.len() == 0 {
        Ok(Seq::empty())
    } else {
        match results_of_entries(entries.drop_last()) {
            Err(m) => Err(m),
            Ok(front) => match result_of_entry(entries.last()) {
                Ok(row) => Ok(front.push(row)),
                Err(m) => Err(m),
            },
        }
    }
}

/// A failure among the first entries is the failure of all of them.
pub proof fn lemma_results_failure_prefix(entries: Seq<JsonView>, n: int)
    requires
        0 <= n <= entries.len(),
        results_of_entries(entries.take(n)) is Err,
    ensures
        results_of_entries(entries) == results_of_entries(entries.take(n)),
    decreases entries.len() - n,
{
    if n < entries.len() {
        assert(entries.take(n + 1).drop_last() =~= entries.take(n));
        lemma_results_failure_prefix(entries, n + 1);
    } else {
        assert(entries.take(n) =~= entries);
    }
}

impl DuplicityResult {
    /// The row of an entry whose creation date has been read already.
    pub fn with_date(j: &JsonValue, creation_date: Option<DateTime>) -> (r: Result<
        Self,
        ToolsError,
    >)
        ensures
            match result_with_date(j@, creation_date) {
                Ok(row) => r matches Ok(got) && got@ == row,
                Err(message) => r matches Err(ToolsError::Json(m)) && m@ == message,
            },
    {
        let title = match j.str_at("title") {
            Some(title) => title,
            None => {
                return Err(ToolsError::Json("DuplicityResult title is not a string".to_owned()));
            },
        };
        if j.str_at("creation_date").is_none() {
            return Err(
                ToolsError::Json("DuplicityResult creation_date is not a string".to_owned()),
            );
        }
        match creation_date {
            Some(creation_date) => Ok(DuplicityResult { title: title.to_owned(), creation_date }),
            None => Err(ToolsError::Json("DuplicityResult creation_date parse error".to_owned())),
        }
    }

    /// Reads one entry of the answer: a string `title` and a string
    /// `creation_date` of fourteen digits.
    pub fn from_json(j: &JsonValue) -> (r: Result<Self, ToolsError>)
        ensures
            match result_of_entry(j@) {
                Ok(row) => r matches Ok(got) && got@ == row,
                Err(message) => r matches Err(ToolsError::Json(m)) && m@ == message,
            },
    {
        let creation_date = match j.str_at("creation_date") {
            Some(text) => DateTime::parse_from_str(text, "%Y%m%d%H%M%S"),
            None => None,
        };
        Self::with_date(j, creation_date)
    }
}

/// What a [`Duplicity`] stands for.
pub struct DuplicityView {
    pub site: SiteView,
    pub results: Seq<DuplicityResultView>,
}

/// A query for the pages of `site` that have no item.
#[derive(Debug, PartialEq)]
pub struct Duplicity {
    site: Site,
    results: Vec<DuplicityResult>,
}

impl View for Duplicity {
    type V = DuplicityView;

    closed spec fn view(&self) -> DuplicityView {
        DuplicityView {
            site: self.site@,
            results: self.results@.map_values(|r: DuplicityResult| r@),
        }
    }
}

/// The row of the list of wikis that an entry gives: it has one where `wiki`
/// is a string and `cnt` is a string that spells a number.
pub open spec fn wiki_of_entry(entry: JsonView) -> Option<(Seq<char>, u64)> {
    match (entry.at("wiki"@).as_str(), entry.at("cnt"@).as_str()) {
        (Some(wiki), Some(cnt)) => match parse_u64_spec(cnt) {
            Some(n) => Some((wiki, n)),
            None => None,
        },
        _ => None,
    }
}

/// The parameters of the request for the pages of a wiki.
pub open spec fn article_parameters(wiki: Seq<char>) -> Seq<(Seq<char>, Seq<char>)> {
    seq![("action"@, "articles"@), ("wiki"@, wiki)]
}

impl Duplicity {
    /// The address of the list of the wikis that the tool knows.
    pub fn wikis_url() -> (r: &'static str)
        ensures
            r@ == "https://wikidata-todo.toolforge.org/duplicity/api.php?action=wikis"@,
    {
        "https://wikidata-todo.toolforge.org/duplicity/api.php?action=wikis"
    }

    /// The address that queries are sent to.
    pub fn api_url() -> (r: &'static str)
        ensures
            r@ == "https://wikidata-todo.toolforge.org/duplicity/api.php"@,
    {
        "https://wikidata-todo.toolforge.org/duplicity/api.php"
    }

    /// Reads the list of the wikis that the tool knows, each with the number
    /// of its pages without an item. An entry that is no row is passed over.
    pub fn wikis(j: &JsonValue) -> (r: Result<Vec<(String, u64)>, ToolsError>)
        ensures
            match j@.at("wikis"@).as_array() {
                Some(entries) => r matches Ok(rows) && rows@.map_values(
                    |r: (String, u64)| (r.0@, r.1),
                ) == decoded_rows(entries, |e: JsonView| wiki_of_entry(e)),
                None => r matches Err(ToolsError::Json(m)) && m@ == "['wikis'] is not an array"@,
            },
    {
        let entries = match j.array_at("wikis") {
            Some(entries) => entries,
            None => { return Err(ToolsError::Json("['wikis'] is not an array".to_owned())); },
        };
        let ghost all = items_view(entries@);
        let ghost decode = |e: JsonView| wiki_of_entry(e);
        let mut rows: Vec<(String, u64)> = Vec::new();
        let mut i: usize = 0;
        assert(all.take(0) =~= Seq::<JsonView>::empty());
        while i < entries.len()
            invariant
                i <= entries.len(),
                all == items_view(entries@),
                decode == |e: JsonView| wiki_of_entry(e),
                rows@.map_values(|r: (String, u64)| (r.0@, r.1)) == decoded_rows(
                    all.take(i as int),
                    decode,
                ),
            decreases entries.len() - i,
        {
            proof {
                lemma_decoded_rows_step(all, decode, i as int);
            }
            let ghost so_far = rows@.map_values(|r: (String, u64)| (r.0@, r.1));
            let entry = &entries[i];
            i = i + 1;
            let wiki = match entry.str_at("wiki") {
                Some(w) => w,
                None => { continue; },
            };
            let cnt = match entry.str_at("cnt") {
                Some(c) => c,
                None => { continue; },
            };
            let count = match parse_u64(cnt) {
                Some(n) => n,
                None => { continue; },
            };
            rows.push((wiki.to_owned(), count));
            assert(rows@.map_values(|r: (String, u64)| (r.0@, r.1)) =~= so_far.push(
                (wiki@, count),
            ));
        }
        assert(all.take(i as int) =~= all);
        Ok(rows)
    }

    /// A query on `site`, without results yet.
    pub fn new(site: Site) -> (r: Self)
        ensures
            r@ == (DuplicityView { site: site@, results: Seq::empty() }),
    {
        let r = Duplicity { site, results: Vec::new() };
        assert(r.results@.map_values(|r: DuplicityResult| r@) =~= Seq::empty());
        r
    }

    pub fn site(&self) -> (r: &Site)
        ensures
            r@ == self@.site,
    {
        &self.site
    }

    /// The rows read last.
    pub fn results(&self) -> (r: &[DuplicityResult])
        ensures
            r@.map_values(|r: DuplicityResult| r@) == self@.results,
    {
        self.results.as_slice()
    }

    /// The parameters of the request.
    pub fn generate_paramters(&self) -> (r: Result<Vec<(String, String)>, ToolsError>)
        ensures
            r matches Ok(p) && pairs_view(p@) == article_parameters(self@.site.wiki),
    {
        let mut p: Vec<(String, String)> = Vec::new();
        p.push(pair("action", "articles"));
        p.push(pair("wiki", self.site.wiki()));
        assert(pairs_view(p@) =~= article_parameters(self@.site.wiki));
        Ok(p)
    }

    /// Reads the answer of the tool. Its `status` has to be `OK` and its
    /// `articles` an array; the rows of the entries replace the results. One
    /// entry that gives no row fails the whole answer. A failure leaves the
    /// query as it is.
    #[verifier::loop_isolation(false)]
    pub fn set_from_json(&mut self, j: &JsonValue) -> (r: Result<(), ToolsError>)
        ensures
            if j@.at("status"@).as_str() != Some("OK"@) {
                r matches Err(ToolsError::Tool(m)) && m@ == "MissingTopics status is not OK"@
                    && final(self)@ == old(self)@
            } else {
                match j@.at("articles"@).as_array() {
                    None => r matches Err(ToolsError::Json(m)) && m@
                        == "['results'] is not an array"@ && final(self)@ == old(self)@,
                    Some(entries) => match results_of_entries(entries) {
                        Err(message) => r matches Err(ToolsError::Json(m)) && m@ == message
                            && final(self)@ == old(self)@,
                        Ok(rows) => r is Ok && final(self)@ == (DuplicityView {
                            results: rows,
                            ..old(self)@
                        }),
                    },
                }
            },
    {
        let ok = match j.str_at("status") {
            Some(status) => str_eq(status, "OK"),
            None => false,
        };
        if !ok {
            return Err(ToolsError::Tool("MissingTopics status is not OK".to_owned()));
        }
        let entries = match j.array_at("articles") {
            Some(entries) => entries,
            None => { return Err(ToolsError::Json("['results'] is not an array".to_owned())); },
        };
        let ghost all = items_view(entries@);
        let mut rows: Vec<DuplicityResult> = Vec::new();
        let mut i: usize = 0;
        assert(all.take(0) =~= Seq::<JsonView>::empty());
        assert(rows@.map_values(|r: DuplicityResult| r@) =~= Seq::empty());
        while i < entries.len()
            invariant
                i <= entries.len(),
                all == items_view(entries@),
                results_of_entries(all.take(i as int)) == Ok::<
                    Seq<DuplicityResultView>,
                    Seq<char>,
                >(rows@.map_values(|r: DuplicityResult| r@)),
            decreases entries.len() - i,
        {
            proof {
                assert(all.take(i + 1).drop_last() =~= all.take(i as int));
                assert(all.take(i + 1).last() == entries@[i as int]@);
            }
            let ghost so_far = rows@.map_values(|r: DuplicityResult| r@);
            match DuplicityResult::from_json(&entries[i]) {
                Ok(row) => {
                    let ghost view = row@;
                    rows.push(row);
                    assert(rows@.map_values(|r: DuplicityResult| r@) =~= so_far.push(view));
                },
                Err(e) => {
                    proof {
                        lemma_results_failure_prefix(all, i + 1);
                    }
                    return Err(e);
                },
            }
            i = i + 1;
        }
        assert(all.take(i as int) =~= all);
        self.results = rows;
        Ok(())
    }
}

} // verus!
