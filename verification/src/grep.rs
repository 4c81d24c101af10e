//! The Grep tool: page titles of one wiki that match a regular expression.
//!
//! The tool answers with a web page; the titles are taken from its list items.
use vstd::prelude::*;
use vstd::string::*;
use crate::error::ToolsError;
use crate::fancy_title::{prefixed_or_empty, title_members, FancyTitle};
use crate::json::{decoded_rows, items_view, lemma_decoded_rows_step, members_view, JsonValue, JsonView};
use crate::page_list::spelling_at;
use crate::site::{site_document, Site, SiteView};
use crate::text::{decimal, strings_view, u64_to_string};
use crate::title::Title;

verus! {

/// What a [`Grep`] stands for.
pub struct GrepView {
    pub site: SiteView,
    pub pattern: Seq<char>,
    pub namespace_id: usize,
    pub include_redirects: bool,
    pub limit_100: bool,
    pub results: Seq<Seq<char>>,
}

/// A query for the titles of `site` that match a pattern.
#[derive(Debug, Default, PartialEq)]
pub struct Grep {
    site: Site,
    pattern: String,
    namespace_id: usize,
    include_redirects: bool,
    limit_100: bool,
    results: Vec<String>,
}

impl View for Grep {
    type V = GrepView;

    closed spec fn view(&self) -> GrepView {
        GrepView {
            site: self.site@,
            pattern: self.pattern@,
            namespace_id: self.namespace_id,
            include_redirects: self.include_redirects,
            limit_100: self.limit_100,
            results: strings_view(self.results@),
        }
    }
}

/// For a regular expression and a text: the first capture group of each of
/// the successive non-overlapping matches of the expression in the text,
/// `None` for a match in which the group took no part. `None` as a whole
/// where the expression does not compile.
pub uninterp spec fn regex_first_groups(pattern: Seq<char>, text: Seq<char>) -> Option<
    Seq<Option<Seq<char>>>,
>;

/// The view of a list of optional strings.
pub open spec fn groups_view(groups: Seq<Option<String>>) -> Seq<Option<Seq<char>>> {
    groups.map_values(
        |g: Option<String>|
            match g {
                Some(s) => Some(s@),
                None => None,
            },
    )
}

/// `regex::Regex::new` followed by `Regex::captures_iter` and `Captures::get(1)`:
/// compiles `pattern` and walks the matches in `text`; the result is what
/// [`regex_first_groups`] names, and nothing more is claimed of it.
#[verifier::external_body]
fn first_groups(pattern: &str, text: &str) -> (r: Option<Vec<Option<String>>>)
    ensures
        match r {
            Some(groups) => regex_first_groups(pattern@, text@) == Some(groups_view(groups@)),
            None => regex_first_groups(pattern@, text@) is None,
        },
{
    let re = regex::Regex::new(pattern).ok()?;
    Some(re.captures_iter(text).map(|c| c.get(1).map(|m| m.as_str().to_string())).collect())
}

/// The expression that finds a title in the tool's answer: the text of a
/// link that fills a list item.
pub open spec fn title_pattern() -> Seq<char> {
    "<li><a href=\".*?\">(.+?)</a></li>"@
}

/// The address of a query.
pub open spec fn grep_address(q: GrepView) -> Seq<char> {
    "https://grep.toolforge.org/index.php?lang="@ + q.site.language + "&project="@ + q.site.project
        + "&namespace="@ + decimal(q.namespace_id as nat) + "&pattern="@ + q.pattern + (
    if q.include_redirects {
        "&redirects=on"@
    } else {
        Seq::empty()
    }) + (if q.limit_100 {
        "&limit=on"@
    } else {
        Seq::empty()
    })
}

/// The titles that a list of capture groups gives: those that are there.
pub open spec fn titles_of_groups(groups: Seq<Option<Seq<char>>>) -> Seq<Seq<char>> {
    decoded_rows(groups, |g: Option<Seq<char>>| g)
}

/// The titles in a list of capture groups, in order.
pub fn collect_titles(groups: &Vec<Option<String>>) -> (r: Vec<String>)
    ensures
        strings_view(r@) == titles_of_groups(groups_view(groups@)),
{
    let ghost all = groups_view(groups@);
    let ghost decode = |g: Option<Seq<char>>| g;
    let mut titles: Vec<String> = Vec::new();
    let mut i: usize = 0;
    assert(all.take(0) =~= Seq::<Option<Seq<char>>>::empty());
    while i < groups.len()
        invariant
            i <= groups.len(),
            all == groups_view(groups@),
            decode == |g: Option<Seq<char>>| g,
            strings_view(titles@) == decoded_rows(all.take(i as int), decode),
        decreases groups.len() - i,
    {
        proof {
            lemma_decoded_rows_step(all, decode, i as int);
        }
        let ghost so_far = strings_view(titles@);
        match &groups[i] {
            Some(title) => {
                titles.push(title.clone());
                assert(strings_view(titles@) =~= so_far.push(title@));
            },
            None => {},
        }
        i = i + 1;
    }
    assert(all.take(i as int) =~= all);
    titles
}

/// The page document of a query's results, given the prefixed spelling of
/// each title.
pub open spec fn grep_document(q: GrepView, spellings: Seq<Option<String>>) -> JsonView {
    JsonView::Object(
        seq![
            (
                "pages"@,
                JsonView::Array(
                    Seq::new(
                        q.results.len(),
                        |i: int|
                            JsonView::Object(
                                title_members(
                                    Title::new_spec(q.results[i], q.namespace_id as i64),
                                    prefixed_or_empty(spelling_at(spellings, i)),
                                ),
                            ),
                    ),
                ),
            ),
            ("site"@, site_document(q.site)),
        ],
    )
}

impl Grep {
    /// A query for `query` on `site`: main namespace, no redirects, no limit.
    pub fn new(site: Site, query: &str) -> (r: Self)
        ensures
            r@ == (GrepView {
                site: site@,
                pattern: query@,
                namespace_id: 0,
                include_redirects: false,
                limit_100: false,
                results: Seq::empty(),
            }),
    {
        let r = Grep {
            site,
            pattern: query.to_owned(),
            namespace_id: 0,
            include_redirects: false,
            limit_100: false,
            results: Vec::new(),
        };
        assert(strings_view(r.results@) =~= Seq::empty());
        r
    }

    pub fn with_namespace(self, namespace_id: usize) -> (r: Self)
        ensures
            r@ == (GrepView { namespace_id, ..self@ }),
    {
        let mut r = self;
        r.namespace_id = namespace_id;
        r
    }

    /// Asks for a hundred titles at most.
    pub fn limit_100(self) -> (r: Self)
        ensures
            r@ == (GrepView { limit_100: true, ..self@ }),
    {
        let mut r = self;
        r.limit_100 = true;
        r
    }

    /// Asks for redirects too.
    pub fn with_redirects(self) -> (r: Self)
        ensures
            r@ == (GrepView { include_redirects: true, ..self@ }),
    {
        let mut r = self;
        r.include_redirects = true;
        r
    }

    /// The titles read last.
    pub fn results(&self) -> (r: &[String])
        ensures
            strings_view(r@) == self@.results,
    {
        self.results.as_slice()
    }

    pub fn site(&self) -> (r: &Site)
        ensures
            r@ == self@.site,
    {
        &self.site
    }

    /// The pattern of the query.
    pub fn query(&self) -> (r: &str)
        ensures
            r@ == self@.pattern,
    {
        self.pattern.as_str()
    }

    /// The address to fetch the answer from.
    pub fn get_url(&self) -> (r: String)
        ensures
            r@ == grep_address(self@),
    {
        let mut url = "https://grep.toolforge.org/index.php?lang=".to_owned();
        url.append(self.site.language());
        url.append("&project=");
        url.append(self.site.project());
        url.append("&namespace=");
        url.append(u64_to_string(self.namespace_id as u64).as_str());
        url.append("&pattern=");
        url.append(self.pattern.as_str());
        let ghost head = url@;
        if self.include_redirects {
            url.append("&redirects=on");
        }
        assert(url@ =~= head + (if self.include_redirects {
            "&redirects=on"@
        } else {
            Seq::empty()
        }));
        let ghost middle = url@;
        if self.limit_100 {
            url.append("&limit=on");
        }
        assert(url@ =~= middle + (if self.limit_100 {
            "&limit=on"@
        } else {
            Seq::empty()
        }));
        url
    }

    /// Replaces the results by the titles among `groups`, the first capture
    /// groups of the matches of [`title_pattern`] in an answer.
    pub fn set_from_groups(&mut self, groups: &Vec<Option<String>>)
        ensures
            final(self)@ == (GrepView {
                results: titles_of_groups(groups_view(groups@)),
                ..old(self)@
            }),
    {
        self.results = collect_titles(groups);
    }

    /// Reads the answer of the tool, a web page: the titles are the texts
    /// that [`title_pattern`] captures in it, and they replace the results.
    pub fn set_from_text(&mut self, text: &str) -> (r: Result<(), ToolsError>)
        ensures
            match regex_first_groups(title_pattern(), text@) {
                Some(groups) => r is Ok && final(self)@ == (GrepView {
                    results: titles_of_groups(groups),
                    ..old(self)@
                }),
                None => r matches Err(ToolsError::Tool(m)) && m@ == "Regex pattern should be valid"@
                    && final(self)@ == old(self)@,
            },
    {
        match first_groups("<li><a href=\".*?\">(.+?)</a></li>", text) {
            Some(groups) => {
                self.set_from_groups(&groups);
                Ok(())
            },
            None => Err(ToolsError::Tool("Regex pattern should be valid".to_owned())),
        }
    }

    /// The page document of the results. `spellings[i]` is the prefixed
    /// spelling of result `i` as the wiki gives it; a result without one gets
    /// the empty string.
    pub fn as_json(&self, spellings: &Vec<Option<String>>) -> (r: JsonValue)
        ensures
            r@ == grep_document(self@, spellings@),
    {
        let namespace_id: i64 = #[verifier::truncate]
        (self.namespace_id as i64);
        let mut entries: Vec<JsonValue> = Vec::new();
        let mut i: usize = 0;
        while i < self.results.len()
            invariant
                i <= self.results.len(),
                namespace_id == self.namespace_id as i64,
                entries@.len() == i,
                forall|k: int|
                    0 <= k < i ==> (#[trigger] entries@[k])@ == JsonView::Object(
                        title_members(
                            Title::new_spec(self.results@[k]@, namespace_id),
                            prefixed_or_empty(spelling_at(spellings@, k)),
                        ),
                    ),
            decreases self.results.len() - i,
        {
            let spelling = if i < spellings.len() {
                match &spellings[i] {
                    Some(s) => Some(s.clone()),
                    None => None,
                }
            } else {
                None
            };
            let fancy = FancyTitle::new(self.results[i].as_str(), namespace_id, spelling);
            entries.push(fancy.to_json());
            i = i + 1;
        }
        let ghost listed = items_view(entries@);
        let mut members: Vec<(String, JsonValue)> = Vec::new();
        members.push(("pages".to_owned(), JsonValue::array(entries)));
        members.push(("site".to_owned(), self.site.to_json()));
        let ghost built = members_view(members@);
        let r = JsonValue::object(members);
        proof {
            let wanted = grep_document(self@, spellings@)->Object_0;
            assert(listed =~= wanted[0].1->Array_0);
            assert(built =~= wanted);
        }
        r
    }
}

} // verus!
