//! PetScan: the pages that a stored query finds.
use std::collections::HashMap;
use vstd::prelude::*;
use vstd::string::*;
use crate::error::{ToolsError, ToolsErrorView};
use crate::fancy_title::option_view;
use crate::json::{members_view, JsonValue, JsonView};
use crate::text::{
    decimal, find_char, first_index_of_char, lemma_first_index_of_char, pairs_view, parse_i32,
    parse_i32_spec, str_eq, substring, to_chars, u64_to_string,
};
use crate::title::Title;

verus! {

/// A use of a file on a page of some wiki.
#[derive(Debug, Default, PartialEq)]
pub struct PetScanFileUsage {
    pub ns: i32,
    pub page: String,
    pub wiki: String,
}

/// What PetScan knows of a page beyond its title.
#[derive(Debug, Default, PartialEq)]
pub struct PetScanMetadata {
    /// Coordinates as `lat/lon`.
    pub coordinates: String,
    /// The image of the page.
    pub image: String,
    /// The Wikidata item.
    pub wikidata: String,
    /// Whether the page is a disambiguation page.
    pub disambiguation: bool,
    pub fileusage: String,
    pub img_height: u64,
    pub img_width: u64,
    pub img_major_mime: String,
    pub img_media_type: String,
    pub img_minor_mime: String,
    pub img_sha1: String,
    pub img_size: u64,
    pub img_timestamp: String,
    pub img_user_text: String,
}

/// One page of the result.
#[derive(Debug, Default, PartialEq)]
pub struct PetScanPage {
    pub page_id: u32,
    pub page_latest: String,
    pub page_len: u32,
    pub page_namespace: i64,
    pub page_title: String,
    pub giu: Vec<PetScanFileUsage>,
    pub metadata: PetScanMetadata,
}

impl PetScanPage {
    /// The title of the page.
    pub fn into_title(self) -> (r: Title)
        ensures
            r@ == Title::new_spec(self.page_title@, self.page_namespace),
    {
        Title::new(self.page_title.as_str(), self.page_namespace)
    }
}

/// What a [`PetScan`] stands for.
pub struct PetScanView {
    pub psid: u32,
    pub parameters: Seq<(Seq<char>, Seq<char>)>,
    pub pages: Seq<PetScanPage>,
    pub namespaces: Map<i32, Seq<char>>,
    pub query: Option<Seq<char>>,
    pub wiki: Option<Seq<char>>,
    pub status: Option<Seq<char>>,
}

/// A stored query, known by its number, with parameters that override the
/// stored ones.
#[derive(Debug, Default, PartialEq)]
pub struct PetScan {
    psid: u32,
    parameters: Vec<(String, String)>,
    pages: Vec<PetScanPage>,
    namespaces: HashMap<i32, String>,
    query: Option<String>,
    wiki: Option<String>,
    status: Option<String>,
}

impl View for PetScan {
    type V = PetScanView;

    closed spec fn view(&self) -> PetScanView {
        PetScanView {
            psid: self.psid,
            parameters: pairs_view(self.parameters@),
            pages: self.pages@,
            namespaces: self.namespaces@.map_values(|s: String| s@),
            query: option_view(self.query),
            wiki: option_view(self.wiki),
            status: option_view(self.status),
        }
    }
}

/// The address of the query with the number `psid`.
pub open spec fn query_address(psid: u32) -> Seq<char> {
    "https://petscan.wmflabs.org/?psid="@ + decimal(psid as nat)
        + "&format=json&output_compatability=quick-intersection"@
}

/// The names of the namespaces that the first `n` members give: each member
/// maps the number that its name spells to the string that is its value.
/// `None` where a name spells no number or a value is no string.
pub open spec fn namespaces_of(members: Seq<(Seq<char>, JsonView)>, n: int) -> Option<
    Map<i32, Seq<char>>,
>
    decreases n,
{
    if n <= 0 {
        Some(Map::empty())
    } else {
        match (
            namespaces_of(members, n - 1),
            parse_i32_spec(members[n - 1].0),
            members[n - 1].1.as_str(),
        ) {
            (Some(names), Some(id), Some(name)) => Some(names.insert(id, name)),
            _ => None,
        }
    }
}

/// What the answer of the tool makes of a query, given the pages that have
/// been read from the entries of `pages`, and the failure that it reports.
/// The status is taken first, then the query, then the namespaces, then
/// the wiki, then the pages.
pub open spec fn petscan_after(q: PetScanView, j: JsonView, pages: Seq<PetScanPage>) -> (
    PetScanView,
    Option<ToolsErrorView>,
) {
    let with_status = PetScanView { status: j.at("status"@).as_str(), ..q };
    if with_status.status != Some("OK"@) {
        (with_status, Some(ToolsErrorView::Tool("PetScan status is not OK"@)))
    } else {
        let with_query = PetScanView { query: j.at("query"@).as_str(), ..with_status };
        match j.at("namespaces"@).as_object() {
            None => (with_query, Some(ToolsErrorView::Json("['namespaces'] has no object"@))),
            Some(members) => match namespaces_of(members, members.len() as int) {
                None => (with_query, Some(ToolsErrorView::Json("['namespaces'] is malformed"@))),
                Some(namespaces) => {
                    let named = PetScanView {
                        namespaces,
                        wiki: j.at("wiki"@).as_str(),
                        ..with_query
                    };
                    match j.at("pages"@).as_array() {
                        None => (named, Some(ToolsErrorView::Json("['pages'] has no array"@))),
                        Some(_) => (PetScanView { pages: named.pages + pages, ..named }, None),
                    }
                },
            },
        }
    }
}

/// What became of a parameter that was given as `key=value`.
#[derive(Debug, PartialEq, Eq, Structural, Clone, Copy)]
pub enum ParameterOverride {
    /// The parameter was set.
    Applied,
    /// The parameter names the format of the answer, which cannot be changed.
    Ignored,
    /// The text holds no `=`.
    Malformed,
}

/// The key and the value of an assignment `key=value`: what stands before
/// the first `=` and what stands behind it.
pub open spec fn assignment_parts(assignment: Seq<char>) -> Option<(Seq<char>, Seq<char>)> {
    match first_index_of_char(assignment, '=') {
        Some(i) => Some(
            (assignment.subrange(0, i), assignment.subrange(i + 1, assignment.len() as int)),
        ),
        None => None,
    }
}

/// The parameters after `key` is set to `value`: other values of that name
/// go, the new one joins at the end.
pub open spec fn with_parameter(
    parameters: Seq<(Seq<char>, Seq<char>)>,
    key: Seq<char>,
    value: Seq<char>,
) -> Seq<(Seq<char>, Seq<char>)> {
    parameters.filter(|p: (Seq<char>, Seq<char>)| p.0 != key).push((key, value))
}

/// Whether an answer is sound as far as the library reads it: its status is
/// `OK`, its namespaces can be read, and it holds an array of pages.
pub open spec fn answer_is_sound(j: JsonView) -> bool {
    &&& j.at("status"@).as_str() == Some("OK"@)
    &&& j.at("namespaces"@).as_object() matches Some(members) && namespaces_of(
        members,
        members.len() as int,
    ) is Some
    &&& j.at("pages"@).as_array() is Some
}

fn owned(s: Option<&str>) -> (r: Option<String>)
    ensures
        option_view(r) == (match s {
            Some(s) => Some(s@),
            None => None,
        }),
{
    match s {
        Some(s) => Some(s.to_owned()),
        None => None,
    }
}

impl PetScan {
    /// The query with the number `psid`, not run yet.
    pub fn new(psid: u32) -> (r: Self)
        ensures
            r@ == (PetScanView {
                psid,
                parameters: Seq::empty(),
                pages: Seq::empty(),
                namespaces: Map::empty(),
                query: None,
                wiki: None,
                status: None,
            }),
    {
        broadcast use vstd::std_specs::hash::group_hash_axioms;

        let r = PetScan {
            psid,
            parameters: Vec::new(),
            pages: Vec::new(),
            namespaces: HashMap::new(),
            query: None,
            wiki: None,
            status: None,
        };
        assert(r@.namespaces =~= Map::empty());
        assert(pairs_view(r.parameters@) =~= Seq::empty());
        r
    }

    /// The number of the query.
    pub fn psid(&self) -> (r: u32)
        ensures
            r == self@.psid,
    {
        self.psid
    }

    /// The parameters that override those of the stored query.
    pub fn parameters(&self) -> (r: &Vec<(String, String)>)
        ensures
            pairs_view(r@) == self@.parameters,
    {
        &self.parameters
    }

    /// The parameters that override those of the stored query, to be changed
    /// in place.
    pub fn parameters_mut(&mut self) -> (r: &mut Vec<(String, String)>)
        ensures
            pairs_view(r@) == old(self)@.parameters,
            final(self)@ == (PetScanView {
                parameters: pairs_view(final(r)@),
                ..old(self)@
            }),
    {
        &mut self.parameters
    }

    /// Sets a parameter that overrides the stored query: other values of
    /// that name go, the new one joins at the end.
    pub fn set_parameter(&mut self, key: &str, value: &str)
        ensures
            final(self)@ == (PetScanView {
                parameters: with_parameter(old(self)@.parameters, key@, value@),
                ..old(self)@
            }),
    {
        let ghost keep = |p: (Seq<char>, Seq<char>)| p.0 != key@;
        let ghost all = pairs_view(self.parameters@);
        let wanted = key.to_owned();
        let mut kept: Vec<(String, String)> = Vec::new();
        let mut i: usize = 0;
        assert(all.take(0) =~= Seq::<(Seq<char>, Seq<char>)>::empty());
        proof {
            reveal(Seq::filter);
        }
        assert(pairs_view(kept@) =~= all.take(0).filter(keep));
        while i < self.parameters.len()
            invariant
                i <= self.parameters.len(),
                wanted@ == key@,
                all == pairs_view(self.parameters@),
                keep == |p: (Seq<char>, Seq<char>)| p.0 != key@,
                pairs_view(kept@) == all.take(i as int).filter(keep),
            decreases self.parameters.len() - i,
        {
            proof {
                reveal(Seq::filter);
                assert(all.take(i + 1).drop_last() =~= all.take(i as int));
                assert(all.take(i + 1).last() == all[i as int]);
            }
            let ghost so_far = pairs_view(kept@);
            if self.parameters[i].0 != wanted {
                kept.push((self.parameters[i].0.clone(), self.parameters[i].1.clone()));
                assert(pairs_view(kept@) =~= so_far.push(all[i as int]));
            }
            i = i + 1;
        }
        assert(all.take(i as int) =~= all);
        let ghost filtered = pairs_view(kept@);
        kept.push((key.to_owned(), value.to_owned()));
        assert(pairs_view(kept@) =~= filtered.push((key@, value@)));
        self.parameters = kept;
    }

    /// Applies an override given as `key=value`. The key `format` is not for
    /// the caller to set.
    pub fn override_parameter(&mut self, assignment: &str) -> (r: ParameterOverride)
        ensures
            match assignment_parts(assignment@) {
                None => r == ParameterOverride::Malformed && final(self)@ == old(self)@,
                Some((key, value)) => if key == "format"@ {
                    r == ParameterOverride::Ignored && final(self)@ == old(self)@
                } else {
                    r == ParameterOverride::Applied && final(self)@ == (PetScanView {
                        parameters: with_parameter(old(self)@.parameters, key, value),
                        ..old(self)@
                    })
                },
            },
    {
        let v = to_chars(assignment);
        let i = match find_char(&v, '=') {
            Some(i) => i,
            None => { return ParameterOverride::Malformed; },
        };
        proof {
            lemma_first_index_of_char(v@, '=');
        }
        let key = substring(&v, 0, i);
        let value = substring(&v, i + 1, v.len());
        if str_eq(key.as_str(), "format") {
            return ParameterOverride::Ignored;
        }
        self.set_parameter(key.as_str(), value.as_str());
        ParameterOverride::Applied
    }

    /// The entries of the pages of an answer, where the answer is sound.
    pub fn page_entries(json: &JsonValue) -> (r: Option<&Vec<JsonValue>>)
        ensures
            match r {
                Some(entries) => answer_is_sound(json@) && json@.at("pages"@).as_array() == Some(
                    crate::json::items_view(entries@),
                ),
                None => !answer_is_sound(json@),
            },
    {
        let ok = match json.str_at("status") {
            Some(status) => str_eq(status, "OK"),
            None => false,
        };
        if !ok {
            return None;
        }
        let members = match json.object_at("namespaces") {
            Some(members) => members,
            None => { return None; },
        };
        if Self::read_namespaces(members).is_none() {
            return None;
        }
        json.array_at("pages")
    }

    /// The pages read so far.
    pub fn pages(&self) -> (r: &[PetScanPage])
        ensures
            r@ == self@.pages,
    {
        self.pages.as_slice()
    }

    /// The wiki that the query ran on, if known.
    pub fn wiki(&self) -> (r: Option<&String>)
        ensures
            match r {
                Some(s) => self@.wiki == Some(s@),
                None => self@.wiki is None,
            },
    {
        self.wiki.as_ref()
    }

    /// The query that was run, if known.
    pub fn query(&self) -> (r: Option<&String>)
        ensures
            match r {
                Some(s) => self@.query == Some(s@),
                None => self@.query is None,
            },
    {
        self.query.as_ref()
    }

    /// The address to fetch the answer from.
    pub fn get_url(&self) -> (r: String)
        ensures
            r@ == query_address(self@.psid),
    {
        let mut url = "https://petscan.wmflabs.org/?psid=".to_owned();
        url.append(u64_to_string(self.psid as u64).as_str());
        url.append("&format=json&output_compatability=quick-intersection");
        url
    }

    /// Reads the names of the namespaces from the members of an object.
    pub fn read_namespaces(members: &Vec<(String, JsonValue)>) -> (r: Option<HashMap<i32, String>>)
        ensures
            match r {
                Some(names) => namespaces_of(members_view(members@), members@.len() as int)
                    == Some(names@.map_values(|s: String| s@)),
                None => namespaces_of(members_view(members@), members@.len() as int) is None,
            },
    {
        broadcast use vstd::std_specs::hash::group_hash_axioms;

        let ghost all = members_view(members@);
        let mut names: HashMap<i32, String> = HashMap::new();
        assert(names@.map_values(|s: String| s@) =~= Map::empty());
        let mut i: usize = 0;
        while i < members.len()
            invariant
                i <= members.len(),
                all == members_view(members@),
                namespaces_of(all, i as int) == Some(names@.map_values(|s: String| s@)),
            decreases members.len() - i,
        {
            let ghost before = names@.map_values(|s: String| s@);
            let id = match parse_i32(members[i].0.as_str()) {
                Some(id) => id,
                None => {
                    proof {
                        lemma_namespaces_fail(all, i + 1, all.len() as int);
                    }
                    return None;
                },
            };
            let name = match members[i].1.as_str() {
                Some(name) => name,
                None => {
                    proof {
                        lemma_namespaces_fail(all, i + 1, all.len() as int);
                    }
                    return None;
                },
            };
            names.insert(id, name.to_owned());
            assert(names@.map_values(|s: String| s@) =~= before.insert(id, name@));
            i = i + 1;
        }
        Some(names)
    }

    /// Reads the answer of the tool. `pages` are the pages that have been
    /// read from the entries of the answer's `pages`, in order. The `status`
    /// has to be `OK`, `namespaces` an object that maps numbers to names, and
    /// `pages` an array; then the pages join those read so far.
    pub fn from_json(&mut self, json: &JsonValue, pages: Vec<PetScanPage>) -> (r: Result<
        (),
        ToolsError,
    >)
        ensures
            final(self)@ == petscan_after(old(self)@, json@, pages@).0,
            match r {
                Ok(_) => petscan_after(old(self)@, json@, pages@).1 is None,
                Err(e) => petscan_after(old(self)@, json@, pages@).1 == Some(
                    crate::error::error_view(e),
                ),
            },
    {
        self.status = owned(json.str_at("status"));
        let ok = match &self.status {
            Some(status) => str_eq(status.as_str(), "OK"),
            None => false,
        };
        if !ok {
            return Err(ToolsError::Tool("PetScan status is not OK".to_owned()));
        }
        self.query = owned(json.str_at("query"));
        let members = match json.object_at("namespaces") {
            Some(members) => members,
            None => { return Err(ToolsError::Json("['namespaces'] has no object".to_owned())); },
        };
        let namespaces = match Self::read_namespaces(members) {
            Some(names) => names,
            None => { return Err(ToolsError::Json("['namespaces'] is malformed".to_owned())); },
        };
        self.namespaces = namespaces;
        self.wiki = owned(json.str_at("wiki"));
        if json.array_at("pages").is_none() {
            return Err(ToolsError::Json("['pages'] has no array".to_owned()));
        }
        let mut pages = pages;
        self.pages.append(&mut pages);
        Ok(())
    }
}

/// Names that cannot be read from the first members cannot be read from more.
pub proof fn lemma_namespaces_fail(members: Seq<(Seq<char>, JsonView)>, n: int, m: int)
    requires
        0 <= n <= m,
        namespaces_of(members, n) is None,
    ensures
        namespaces_of(members, m) is None,
    decreases m - n,
{
    if n < m {
        lemma_namespaces_fail(members, n, m - 1);
    }
}

} // verus!
