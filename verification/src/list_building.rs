//! The list building tool: pages of one wiki that relate to a given page.
use vstd::prelude::*;
use vstd::string::*;
use crate::error::ToolsError;
use crate::json::{decoded_rows, items_view, lemma_decoded_rows_step, JsonValue, JsonView};
use crate::site::{Site, SiteView};

verus! {

/// What a [`ListBuildingResult`] stands for.
pub struct ListBuildingResultView {
    pub title: Seq<char>,
    pub qid: Seq<char>,
    pub description: Seq<char>,
}

/// What a [`ListBuilding`] stands for.
pub struct ListBuildingView {
    pub site: SiteView,
    pub title: Seq<char>,
    pub results: Seq<ListBuildingResultView>,
}

/// One related page, with its Wikidata item and a description.
#[derive(Debug, Default, PartialEq)]
pub struct ListBuildingResult {
    pub title: String,
    pub qid: String,
    pub description: String,
}

impl View for ListBuildingResult {
    type V = ListBuildingResultView;

    open spec fn view(&self) -> ListBuildingResultView {
        ListBuildingResultView {
            title: self.title@,
            qid: self.qid@,
            description: self.description@,
        }
    }
}

/// A query for the pages of `site` that relate to the page `title`.
#[derive(Debug, Default, PartialEq)]
pub struct ListBuilding {
    site: Site,
    title: String,
    results: Vec<ListBuildingResult>,
}

impl View for ListBuilding {
    type V = ListBuildingView;

    closed spec fn view(&self) -> ListBuildingView {
        ListBuildingView {
            site: self.site@,
            title: self.title@,
            results: self.results@.map_values(|r: ListBuildingResult| r@),
        }
    }
}

/// The row that an entry of the answer gives: it has one where `page_title`,
/// `qid` and `description` are strings.
pub open spec fn result_of_entry(entry: JsonView) -> Option<ListBuildingResultView> {
    match (
        entry.at("page_title"@).as_str(),
        entry.at("qid"@).as_str(),
        entry.at("description"@).as_str(),
    ) {
        (Some(title), Some(qid), Some(description)) => Some(
            ListBuildingResultView { title, qid, description },
        ),
        _ => None,
    }
}

/// The address of the query for the page `title` in the language `language`.
pub open spec fn query_address(language: Seq<char>, title: Seq<char>) -> Seq<char> {
    "https://list-building.toolforge.org/api/serpentine?lang="@ + language + "&title="@ + title
        + "&qid=&k-reader=3&k-links=3&k-morelike=4&wp"@
}

impl ListBuilding {
    /// A query for `title` on `site`, without results yet.
    pub fn new(site: Site, title: &str) -> (r: Self)
        ensures
            r@ == (ListBuildingView { site: site@, title: title@, results: Seq::empty() }),
    {
        let r = ListBuilding { site, title: title.to_owned(), results: Vec::new() };
        assert(r.results@.map_values(|r: ListBuildingResult| r@) =~= Seq::empty());
        r
    }

    /// The rows read so far.
    pub fn results(&self) -> (r: &[ListBuildingResult])
        ensures
            r@.map_values(|r: ListBuildingResult| r@) == self@.results,
    {
        self.results.as_slice()
    }

    pub fn site(&self) -> (r: &Site)
        ensures
            r@ == self@.site,
    {
        &self.site
    }

    pub fn title(&self) -> (r: &str)
        ensures
            r@ == self@.title,
    {
        self.title.as_str()
    }

    /// The address to fetch the answer from.
    pub fn get_url(&self) -> (r: String)
        ensures
            r@ == query_address(self@.site.language, self@.title),
    {
        let mut url = "https://list-building.toolforge.org/api/serpentine?lang=".to_owned();
        url.append(self.site.language());
        url.append("&title=");
        url.append(self.title.as_str());
        url.append("&qid=&k-reader=3&k-links=3&k-morelike=4&wp");
        url
    }

    /// Reads the answer of the tool: an object whose member `results` is an
    /// array with one entry for each page. The rows of the entries join the
    /// results; an entry that lacks one of the three strings is passed over.
    /// An answer without that array is refused and leaves the query as it is.
    pub fn set_from_json(&mut self, j: &JsonValue) -> (r: Result<(), ToolsError>)
        ensures
            match j@.at("results"@).as_array() {
                Some(entries) => r is Ok && final(self)@ == (ListBuildingView {
                    results: old(self)@.results + decoded_rows(
                        entries,
                        |e: JsonView| result_of_entry(e),
                    ),
                    ..old(self)@
                }),
                None => r matches Err(ToolsError::Json(m)) && m@ == "Result is not an array"@
                    && final(self)@ == old(self)@,
            },
    {
        let entries = match j.array_at("results") {
            Some(entries) => entries,
            None => { return Err(ToolsError::Json("Result is not an array".to_owned())); },
        };
        let ghost all = items_view(entries@);
        let ghost decode = |e: JsonView| result_of_entry(e);
        let ghost before = self@.results;
        let mut i: usize = 0;
        assert(all.take(0) =~= Seq::<JsonView>::empty());
        assert(before + decoded_rows(all.take(0), decode) =~= before);
        while i < entries.len()
            invariant
                i <= entries.len(),
                all == items_view(entries@),
                decode == |e: JsonView| result_of_entry(e),
                self.site == old(self).site,
                self.title == old(self).title,
                self@.results == before + decoded_rows(all.take(i as int), decode),
            decreases entries.len() - i,
        {
            proof {
                lemma_decoded_rows_step(all, decode, i as int);
            }
            let ghost so_far = self@.results;
            let entry = &entries[i];
            i = i + 1;
            let title = match entry.str_at("page_title") {
                Some(title) => title,
                None => { continue; },
            };
            let qid = match entry.str_at("qid") {
                Some(qid) => qid,
                None => { continue; },
            };
            let description = match entry.str_at("description") {
                Some(description) => description,
                None => { continue; },
            };
            let row = ListBuildingResult {
                title: title.to_owned(),
                description: description.to_owned(),
                qid: qid.to_owned(),
            };
            self.results.push(row);
            assert(self@.results =~= so_far.push(result_of_entry(entry@).unwrap()));
        }
        assert(all.take(i as int) =~= all);
        Ok(())
    }
}

} // verus!
