//! The "A List Building Tool": pages of one wiki that relate to a Wikidata item.
use vstd::prelude::*;
use vstd::string::*;
use crate::error::ToolsError;
use crate::json::{decoded_rows, items_view, lemma_decoded_rows_step, JsonValue, JsonView};
use crate::site::{Site, SiteView};

verus! {

/// What an [`AListBuildingToolResult`] stands for.
pub struct AListBuildingToolResultView {
    pub title: Seq<char>,
    pub qid: Seq<char>,
}

/// What an [`AListBuildingTool`] stands for.
pub struct AListBuildingToolView {
    pub site: SiteView,
    pub q: Seq<char>,
    pub results: Seq<AListBuildingToolResultView>,
}

/// One page that the tool lists, with its Wikidata item.
#[derive(Debug, Default, PartialEq)]
pub struct AListBuildingToolResult {
    pub title: String,
    pub qid: String,
}

impl View for AListBuildingToolResult {
    type V = AListBuildingToolResultView;

    open spec fn view(&self) -> AListBuildingToolResultView {
        AListBuildingToolResultView { title: self.title@, qid: self.qid@ }
    }
}

/// A query for the pages of `site` that relate to the item `q`.
#[derive(Debug, Default, PartialEq)]
pub struct AListBuildingTool {
    site: Site,
    q: String,
    results: Vec<AListBuildingToolResult>,
}

impl View for AListBuildingTool {
    type V = AListBuildingToolView;

    closed spec fn view(&self) -> AListBuildingToolView {
        AListBuildingToolView {
            site: self.site@,
            q: self.q@,
            results: self.results@.map_values(|r: AListBuildingToolResult| r@),
        }
    }
}

/// The row that an entry of the answer gives: it has one where `title` and
/// `qid` are strings.
pub open spec fn result_of_entry(entry: JsonView) -> Option<AListBuildingToolResultView> {
    match (entry.at("title"@).as_str(), entry.at("qid"@).as_str()) {
        (Some(title), Some(qid)) => Some(AListBuildingToolResultView { title, qid }),
        _ => None,
    }
}

/// The address of the query for the item `q` on the wiki `wiki`.
pub open spec fn query_address(wiki: Seq<char>, q: Seq<char>) -> Seq<char> {
    "https://a-list-bulding-tool.toolforge.org/API/?wiki_db="@ + wiki + "&QID="@ + q
}

impl AListBuildingTool {
    /// A query for `q` on `site`, without results yet.
    pub fn new(site: Site, q: &str) -> (r: Self)
        ensures
            r@ == (AListBuildingToolView { site: site@, q: q@, results: Seq::empty() }),
    {
        let r = AListBuildingTool { site, q: q.to_owned(), results: Vec::new() };
        assert(r.results@.map_values(|r: AListBuildingToolResult| r@) =~= Seq::empty());
        r
    }

    /// The rows read so far.
    pub fn results(&self) -> (r: &[AListBuildingToolResult])
        ensures
            r@.map_values(|r: AListBuildingToolResult| r@) == self@.results,
    {
        self.results.as_slice()
    }

    pub fn site(&self) -> (r: &Site)
        ensures
            r@ == self@.site,
    {
        &self.site
    }

    pub fn q(&self) -> (r: &str)
        ensures
            r@ == self@.q,
    {
        self.q.as_str()
    }

    /// The address to fetch the answer from.
    pub fn get_url(&self) -> (r: String)
        ensures
            r@ == query_address(self@.site.wiki, self@.q),
    {
        let mut url = "https://a-list-bulding-tool.toolforge.org/API/?wiki_db=".to_owned();
        url.append(self.site.wiki());
        url.append("&QID=");
        url.append(self.q.as_str());
        url
    }

    /// Reads the answer of the tool: an array with one entry for each page.
    /// The rows of the entries join the results; an entry without a string
    /// `title` or a string `qid` is passed over. Anything but an array is
    /// refused and leaves the query as it is.
    pub fn set_from_json(&mut self, j: &JsonValue) -> (r: Result<(), ToolsError>)
        ensures
            match j@.as_array() {
                Some(entries) => r is Ok && final(self)@ == (AListBuildingToolView {
                    results: old(self)@.results + decoded_rows(
                        entries,
                        |e: JsonView| result_of_entry(e),
                    ),
                    ..old(self)@
                }),
                None => r matches Err(ToolsError::Json(m)) && m@ == "Result is not an array"@
                    && final(self)@ == old(self)@,
            },
    {
        let entries = match j.as_array() {
            Some(entries) => entries,
            None => { return Err(ToolsError::Json("Result is not an array".to_owned())); },
        };
        let ghost all = items_view(entries@);
        let ghost decode = |e: JsonView| result_of_entry(e);
        let ghost before = self@.results;
        let mut i: usize = 0;
        assert(all.take(0) =~= Seq::<JsonView>::empty());
        assert(before + decoded_rows(all.take(0), decode) =~= before);
        while i < entries.len()
            invariant
                i <= entries.len(),
                all == items_view(entries@),
                decode == |e: JsonView| result_of_entry(e),
                self.site == old(self).site,
                self.q == old(self).q,
                self@.results == before + decoded_rows(all.take(i as int), decode),
            decreases entries.len() - i,
        {
            proof {
                lemma_decoded_rows_step(all, decode, i as int);
            }
            let ghost so_far = self@.results;
            let entry = &entries[i];
            i = i + 1;
            let title = match entry.str_at("title") {
                Some(title) => title,
                None => { continue; },
            };
            let qid = match entry.str_at("qid") {
                Some(qid) => qid,
                None => { continue; },
            };
            let row = AListBuildingToolResult { title: title.to_owned(), qid: qid.to_owned() };
            self.results.push(row);
            assert(self@.results =~= so_far.push(result_of_entry(entry@).unwrap()));
        }
        assert(all.take(i as int) =~= all);
        Ok(())
    }
}

} // verus!
