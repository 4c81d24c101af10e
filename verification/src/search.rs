//! Full-text search on one wiki through the MediaWiki search interface.
use vstd::prelude::*;
use vstd::string::*;
use crate::error::ToolsError;
use crate::json::{decoded_rows, items_view, lemma_decoded_rows_step, JsonValue, JsonView};
use crate::site::{webserver_of, Site, SiteView};
use crate::text::{decimal, u64_to_string};

verus! {

/// What a [`WikiSearchResult`] stands for.
pub struct WikiSearchResultView {
    pub namespace_id: u32,
    pub title: Seq<char>,
    pub page_id: usize,
    pub size: usize,
    pub wordcount: usize,
    pub snippet: Seq<char>,
}

/// What a [`WikiSearch`] stands for.
pub struct WikiSearchView {
    pub site: SiteView,
    pub query: Seq<char>,
    pub namespace_ids: Seq<char>,
    pub offset: u32,
    pub limit: u32,
    pub results: Seq<WikiSearchResultView>,
}

/// One hit of a search.
#[derive(Debug, Default, PartialEq)]
pub struct WikiSearchResult {
    pub namespace_id: u32,
    pub title: String,
    pub page_id: usize,
    pub size: usize,
    pub wordcount: usize,
    pub snippet: String,
}

impl View for WikiSearchResult {
    type V = WikiSearchResultView;

    open spec fn view(&self) -> WikiSearchResultView {
        WikiSearchResultView {
            namespace_id: self.namespace_id,
            title: self.title@,
            page_id: self.page_id,
            size: self.size,
            wordcount: self.wordcount,
            snippet: self.snippet@,
        }
    }
}

/// The hit that an entry of the answer gives: it has one where `ns`,
/// `pageid`, `size` and `wordcount` are non-negative integers and `title` and
/// `snippet` are strings. A number too large for its field is cut to the
/// field's width.
pub open spec fn result_of_entry(entry: JsonView) -> Option<WikiSearchResultView> {
    match (
        entry.at("ns"@).as_u64(),
        entry.at("title"@).as_str(),
        entry.at("pageid"@).as_u64(),
        entry.at("size"@).as_u64(),
        entry.at("wordcount"@).as_u64(),
        entry.at("snippet"@).as_str(),
    ) {
        (Some(ns), Some(title), Some(page_id), Some(size), Some(wordcount), Some(snippet)) => Some(
            WikiSearchResultView {
                namespace_id: ns as u32,
                title,
                page_id: page_id as usize,
                size: size as usize,
                wordcount: wordcount as usize,
                snippet,
            },
        ),
        _ => None,
    }
}

impl WikiSearchResult {
    /// Reads one entry of the answer.
    pub fn from_json(json: &JsonValue) -> (r: Option<Self>)
        ensures
            match r {
                Some(hit) => result_of_entry(json@) == Some(hit@),
                None => result_of_entry(json@) is None,
            },
    {
        let ns = match json.u64_at("ns") {
            Some(n) => n,
            None => { return None; },
        };
        let title = match json.str_at("title") {
            Some(t) => t,
            None => { return None; },
        };
        let page_id = match json.u64_at("pageid") {
            Some(n) => n,
            None => { return None; },
        };
        let size = match json.u64_at("size") {
            Some(n) => n,
            None => { return None; },
        };
        let wordcount = match json.u64_at("wordcount") {
            Some(n) => n,
            None => { return None; },
        };
        let snippet = match json.str_at("snippet") {
            Some(t) => t,
            None => { return None; },
        };
        Some(
            WikiSearchResult {
                namespace_id: #[verifier::truncate]
                (ns as u32),
                title: title.to_owned(),
                page_id: #[verifier::truncate]
                (page_id as usize),
                size: #[verifier::truncate]
                (size as usize),
                wordcount: #[verifier::truncate]
                (wordcount as usize),
                snippet: snippet.to_owned(),
            },
        )
    }
}

/// A search for `query` on `site`.
#[derive(Debug, Default, PartialEq)]
pub struct WikiSearch {
    site: Site,
    query: String,
    namespace_ids: String,
    offset: u32,
    limit: u32,
    results: Vec<WikiSearchResult>,
}

impl View for WikiSearch {
    type V = WikiSearchView;

    closed spec fn view(&self) -> WikiSearchView {
        WikiSearchView {
            site: self.site@,
            query: self.query@,
            namespace_ids: self.namespace_ids@,
            offset: self.offset,
            limit: self.limit,
            results: self.results@.map_values(|r: WikiSearchResult| r@),
        }
    }
}

/// The address of a search request.
pub open spec fn search_address(search: WikiSearchView) -> Seq<char> {
    "https://"@ + webserver_of(search.site) + "/w/api.php?action=query&list=search&srsearch="@
        + search.query + "&srnamespace="@ + search.namespace_ids + "&sroffset="@ + decimal(
        search.offset as nat,
    ) + "&srlimit="@ + decimal(search.limit as nat) + "&format=json"@
}

impl WikiSearch {
    /// A search for `query` on `site`: main namespace, ten hits from the start.
    pub fn new(site: Site, query: &str) -> (r: Self)
        ensures
            r@ == (WikiSearchView {
                site: site@,
                query: query@,
                namespace_ids: "0"@,
                offset: 0,
                limit: 10,
                results: Seq::empty(),
            }),
    {
        let r = WikiSearch {
            site,
            query: query.to_owned(),
            namespace_ids: "0".to_owned(),
            offset: 0,
            limit: 10,
            results: Vec::new(),
        };
        assert(r.results@.map_values(|r: WikiSearchResult| r@) =~= Seq::empty());
        r
    }

    /// Searches the one namespace `namespace_id`.
    pub fn with_namespace_id(self, namespace_id: u32) -> (r: Self)
        ensures
            r@ == (WikiSearchView { namespace_ids: decimal(namespace_id as nat), ..self@ }),
    {
        let mut r = self;
        r.namespace_ids = u64_to_string(namespace_id as u64);
        r
    }

    /// Searches the namespaces that `namespace_ids` lists.
    pub fn with_namespace_ids(self, namespace_ids: &str) -> (r: Self)
        ensures
            r@ == (WikiSearchView { namespace_ids: namespace_ids@, ..self@ }),
    {
        let mut r = self;
        r.namespace_ids = namespace_ids.to_owned();
        r
    }

    pub fn with_limit(self, limit: u32) -> (r: Self)
        ensures
            r@ == (WikiSearchView { limit, ..self@ }),
    {
        let mut r = self;
        r.limit = limit;
        r
    }

    pub fn with_offset(self, offset: u32) -> (r: Self)
        ensures
            r@ == (WikiSearchView { offset, ..self@ }),
    {
        let mut r = self;
        r.offset = offset;
        r
    }

    /// The hits read so far.
    pub fn results(&self) -> (r: &[WikiSearchResult])
        ensures
            r@.map_values(|r: WikiSearchResult| r@) == self@.results,
    {
        self.results.as_slice()
    }

    pub fn site(&self) -> (r: &Site)
        ensures
            r@ == self@.site,
    {
        &self.site
    }

    pub fn query(&self) -> (r: &str)
        ensures
            r@ == self@.query,
    {
        self.query.as_str()
    }

    pub fn namespace_ids(&self) -> (r: &str)
        ensures
            r@ == self@.namespace_ids,
    {
        self.namespace_ids.as_str()
    }

    pub fn offset(&self) -> (r: u32)
        ensures
            r == self@.offset,
    {
        self.offset
    }

    pub fn limit(&self) -> (r: u32)
        ensures
            r == self@.limit,
    {
        self.limit
    }

    /// The address to fetch the answer from.
    pub fn get_url(&self) -> (r: String)
        ensures
            r@ == search_address(self@),
    {
        let mut url = "https://".to_owned();
        url.append(self.site.webserver().as_str());
        url.append("/w/api.php?action=query&list=search&srsearch=");
        url.append(self.query.as_str());
        url.append("&srnamespace=");
        url.append(self.namespace_ids.as_str());
        url.append("&sroffset=");
        url.append(u64_to_string(self.offset as u64).as_str());
        url.append("&srlimit=");
        url.append(u64_to_string(self.limit as u64).as_str());
        url.append("&format=json");
        url
    }

    /// Reads the answer of the search: the hits are the entries of the array
    /// `query.search`, and they replace the results. An entry that is no hit
    /// is passed over. An answer without that array is refused and leaves the
    /// search as it is.
    pub fn set_from_json(&mut self, j: &JsonValue) -> (r: Result<(), ToolsError>)
        ensures
            match j@.at("query"@).at("search"@).as_array() {
                Some(entries) => r is Ok && final(self)@ == (WikiSearchView {
                    results: decoded_rows(entries, |e: JsonView| result_of_entry(e)),
                    ..old(self)@
                }),
                None => r matches Err(ToolsError::Json(m)) && m@ == "Result is not an array"@
                    && final(self)@ == old(self)@,
            },
    {
        let found = match j.get("query") {
            Some(q) => q.array_at("search"),
            None => None,
        };
        let entries = match found {
            Some(entries) => entries,
            None => { return Err(ToolsError::Json("Result is not an array".to_owned())); },
        };
        let ghost all = items_view(entries@);
        let ghost decode = |e: JsonView| result_of_entry(e);
        let mut results: Vec<WikiSearchResult> = Vec::new();
        let mut i: usize = 0;
        assert(all.take(0) =~= Seq::<JsonView>::empty());
        while i < entries.len()
            invariant
                i <= entries.len(),
                all == items_view(entries@),
                decode == |e: JsonView| result_of_entry(e),
                results@.map_values(|r: WikiSearchResult| r@) == decoded_rows(
                    all.take(i as int),
                    decode,
                ),
            decreases entries.len() - i,
        {
            proof {
                lemma_decoded_rows_step(all, decode, i as int);
            }
            let ghost so_far = results@.map_values(|r: WikiSearchResult| r@);
            match WikiSearchResult::from_json(&entries[i]) {
                Some(hit) => {
                    let ghost view = hit@;
                    results.push(hit);
                    assert(results@.map_values(|r: WikiSearchResult| r@) =~= so_far.push(view));
                },
                None => {},
            }
            i = i + 1;
        }
        assert(all.take(i as int) =~= all);
        self.results = results;
        Ok(())
    }
}

} // verus!
