//! The Missing Topics tool: pages that an article or a category links to and
//! that do not exist yet.
use vstd::prelude::*;
use vstd::string::*;
use crate::error::ToolsError;
use crate::fancy_title::option_view;
use crate::json::{decoded_rows, lemma_decoded_rows_step, members_view, JsonValue, JsonView};
use crate::site::{Site, SiteView};
use crate::text::{decimal, pair, pairs_view, u64_to_string};

verus! {

/// What a [`MissingTopics`] stands for.
pub struct MissingTopicsView {
    pub site: SiteView,
    pub category_depth: Option<u32>,
    pub category: Option<Seq<char>>,
    pub article: Option<Seq<char>>,
    pub occurs_more_often_than: Option<u32>,
    pub no_template_links: Option<bool>,
    pub no_singles: bool,
    pub url_used: Seq<char>,
    pub results: Seq<(Seq<char>, u64)>,
    pub tool_url: Seq<char>,
}

/// A query for the missing topics of an article or of a category.
#[derive(Debug, Default, PartialEq)]
pub struct MissingTopics {
    site: Site,
    category_depth: Option<u32>,
    category: Option<String>,
    article: Option<String>,
    occurs_more_often_than: Option<u32>,
    no_template_links: Option<bool>,
    no_singles: bool,
    url_used: String,
    results: Vec<(String, u64)>,
    tool_url: String,
}

impl View for MissingTopics {
    type V = MissingTopicsView;

    closed spec fn view(&self) -> MissingTopicsView {
        MissingTopicsView {
            site: self.site@,
            category_depth: self.category_depth,
            category: option_view(self.category),
            article: option_view(self.article),
            occurs_more_often_than: self.occurs_more_often_than,
            no_template_links: self.no_template_links,
            no_singles: self.no_singles,
            url_used: self.url_used@,
            results: self.results@.map_values(|r: (String, u64)| (r.0@, r.1)),
            tool_url: self.tool_url@,
        }
    }
}

/// `"1"` for true, `"0"` for false.
pub open spec fn flag(b: bool) -> Seq<char> {
    if b {
        "1"@
    } else {
        "0"@
    }
}

/// The parameters that every request carries.
pub open spec fn base_parameters(q: MissingTopicsView) -> Seq<(Seq<char>, Seq<char>)> {
    seq![
        ("language"@, q.site.language),
        ("project"@, q.site.project),
        ("doit"@, "Run"@),
        ("wikimode"@, "json"@),
    ]
}

/// The parameters that name what is looked at: a category with its depth,
/// else an article. `None` where neither is set.
pub open spec fn subject_parameters(q: MissingTopicsView) -> Option<Seq<(Seq<char>, Seq<char>)>> {
    if q.category is Some && q.category_depth is Some {
        Some(
            seq![
                ("category"@, q.category.unwrap()),
                ("depth"@, decimal(q.category_depth.unwrap() as nat)),
            ],
        )
    } else if q.article is Some {
        Some(seq![("article"@, q.article.unwrap())])
    } else {
        None
    }
}

/// The parameters that restrict the answer.
pub open spec fn option_parameters(q: MissingTopicsView) -> Seq<(Seq<char>, Seq<char>)> {
    seq![("nosingles"@, flag(q.no_singles))] + (match q.no_template_links {
        Some(b) => seq![("no_template_links"@, flag(b))],
        None => Seq::empty(),
    }) + (match q.occurs_more_often_than {
        Some(n) => seq![("limitnum"@, decimal(n as nat))],
        None => Seq::empty(),
    })
}

/// Whether both a category with its depth and an article are set.
pub open spec fn has_two_subjects(q: MissingTopicsView) -> bool {
    q.category is Some && q.category_depth is Some && q.article is Some
}

/// The row that a member of `results` gives: it has one where its value is a
/// non-negative integer.
pub open spec fn result_of_member(member: (Seq<char>, JsonView)) -> Option<(Seq<char>, u64)> {
    match member.1.as_u64() {
        Some(count) => Some((member.0, count)),
        None => None,
    }
}

impl MissingTopics {
    /// A query on `site` with nothing set yet.
    pub fn new(site: Site) -> (r: Self)
        ensures
            r@ == (MissingTopicsView {
                site: site@,
                category_depth: None,
                category: None,
                article: None,
                occurs_more_often_than: None,
                no_template_links: None,
                no_singles: false,
                url_used: Seq::empty(),
                results: Seq::empty(),
                tool_url: "https://missingtopics.toolforge.org/"@,
            }),
    {
        let r = MissingTopics {
            site,
            category_depth: None,
            category: None,
            article: None,
            occurs_more_often_than: None,
            no_template_links: None,
            no_singles: false,
            url_used: String::new(),
            results: Vec::new(),
            tool_url: "https://missingtopics.toolforge.org/".to_owned(),
        };
        assert(r.results@.map_values(|r: (String, u64)| (r.0@, r.1)) =~= Seq::empty());
        r
    }

    /// Looks at a category and at its subcategories down to the given depth.
    /// Only one of category and article can be set.
    pub fn with_category(self, category: &str, category_depth: u32) -> (r: Self)
        ensures
            r@ == (MissingTopicsView {
                category: Some(category@),
                category_depth: Some(category_depth),
                ..self@
            }),
    {
        let mut r = self;
        r.category = Some(category.to_owned());
        r.category_depth = Some(category_depth);
        r
    }

    /// Looks at an article. Only one of category and article can be set.
    pub fn with_article(self, article: &str) -> (r: Self)
        ensures
            r@ == (MissingTopicsView { article: Some(article@), ..self@ }),
    {
        let mut r = self;
        r.article = Some(article.to_owned());
        r
    }

    /// Keeps only topics that are wanted more often than the given number.
    pub fn limit(self, occurs_more_often_than: u32) -> (r: Self)
        ensures
            r@ == (MissingTopicsView {
                no_singles: true,
                occurs_more_often_than: Some(occurs_more_often_than),
                ..self@
            }),
    {
        let mut r = self;
        r.no_singles = true;
        r.occurs_more_often_than = Some(occurs_more_often_than);
        r
    }

    /// Leaves out links that come from templates used in category pages.
    pub fn no_template_links(self, no_template_links: bool) -> (r: Self)
        ensures
            r@ == (MissingTopicsView { no_template_links: Some(no_template_links), ..self@ }),
    {
        let mut r = self;
        r.no_template_links = Some(no_template_links);
        r
    }

    /// Sends the query to another address than the tool's own.
    pub fn with_tool_url(self, tool_url: &str) -> (r: Self)
        ensures
            r@ == (MissingTopicsView { tool_url: tool_url@, ..self@ }),
    {
        let mut r = self;
        r.tool_url = tool_url.to_owned();
        r
    }

    /// The parameters of the request. A query with both a category and an
    /// article, or with neither, has none.
    pub fn generate_paramters(&self) -> (r: Result<Vec<(String, String)>, ToolsError>)
        ensures
            if has_two_subjects(self@) {
                r matches Err(ToolsError::Tool(m)) && m@
                    == "Only one of category or article can be set"@
            } else {
                match subject_parameters(self@) {
                    None => r matches Err(ToolsError::Tool(m)) && m@
                        == "Either category or article must be set"@,
                    Some(subject) => r matches Ok(p) && pairs_view(p@) == base_parameters(self@)
                        + subject + option_parameters(self@),
                }
            },
    {
        let mut parameters: Vec<(String, String)> = Vec::new();
        parameters.push(pair("language", self.site.language()));
        parameters.push(pair("project", self.site.project()));
        parameters.push(pair("doit", "Run"));
        parameters.push(pair("wikimode", "json"));
        assert(pairs_view(parameters@) =~= base_parameters(self@));
        if self.category.is_some() && self.category_depth.is_some() && self.article.is_some() {
            return Err(ToolsError::Tool("Only one of category or article can be set".to_owned()));
        }
        let ghost base = pairs_view(parameters@);
        match (&self.category, &self.category_depth, &self.article) {
            (Some(category), Some(depth), _) => {
                parameters.push(pair("category", category.as_str()));
                parameters.push(pair("depth", u64_to_string(*depth as u64).as_str()));
                assert(pairs_view(parameters@) =~= base + subject_parameters(self@).unwrap());
            },
            (_, _, Some(article)) => {
                parameters.push(pair("article", article.as_str()));
                assert(pairs_view(parameters@) =~= base + subject_parameters(self@).unwrap());
            },
            _ => {
                return Err(ToolsError::Tool("Either category or article must be set".to_owned()));
            },
        }
        let ghost head = pairs_view(parameters@);
        parameters.push(pair("nosingles", if self.no_singles { "1" } else { "0" }));
        match self.no_template_links {
            Some(true) => parameters.push(pair("no_template_links", "1")),
            Some(false) => parameters.push(pair("no_template_links", "0")),
            None => {},
        }
        match self.occurs_more_often_than {
            Some(n) => parameters.push(pair("limitnum", u64_to_string(n as u64).as_str())),
            None => {},
        }
        assert(pairs_view(parameters@) =~= head + option_parameters(self@));
        Ok(parameters)
    }

    /// Reads the answer of the tool. Its `status` has to be `OK`; the members
    /// of `results` whose value is a count replace the results, in the order
    /// of the object; `url` is the address that the tool says it used. The
    /// results are taken first, so they are also kept where `url` is missing.
    pub fn from_json(&mut self, j: &JsonValue) -> (r: Result<(), ToolsError>)
        ensures
            if j@.at("status"@).as_str() != Some("OK"@) {
                r matches Err(ToolsError::Tool(m)) && m@ == "MissingTopics status is not OK"@
                    && final(self)@ == old(self)@
            } else {
                match j@.at("results"@).as_object() {
                    None => r matches Err(ToolsError::Json(m)) && m@
                        == "['results'] has no object"@ && final(self)@ == old(self)@,
                    Some(members) => {
                        let results = decoded_rows(
                            members,
                            |m: (Seq<char>, JsonView)| result_of_member(m),
                        );
                        match j@.at("url"@).as_str() {
                            None => r matches Err(ToolsError::Json(m)) && m@ == "['url'] is missing"@
                                && final(self)@ == (MissingTopicsView { results, ..old(self)@ }),
                            Some(url) => r is Ok && final(self)@ == (MissingTopicsView {
                                results,
                                url_used: url,
                                ..old(self)@
                            }),
                        }
                    },
                }
            },
    {
        let ok = match j.str_at("status") {
            Some(status) => crate::text::str_eq(status, "OK"),
            None => false,
        };
        if !ok {
            return Err(ToolsError::Tool("MissingTopics status is not OK".to_owned()));
        }
        let members = match j.object_at("results") {
            Some(members) => members,
            None => { return Err(ToolsError::Json("['results'] has no object".to_owned())); },
        };
        let ghost all = members_view(members@);
        let ghost decode = |m: (Seq<char>, JsonView)| result_of_member(m);
        let mut results: Vec<(String, u64)> = Vec::new();
        let mut i: usize = 0;
        assert(all.take(0) =~= Seq::<(Seq<char>, JsonView)>::empty());
        while i < members.len()
            invariant
                i <= members.len(),
                all == members_view(members@),
                decode == |m: (Seq<char>, JsonView)| result_of_member(m),
                results@.map_values(|r: (String, u64)| (r.0@, r.1)) == decoded_rows(
                    all.take(i as int),
                    decode,
                ),
            decreases members.len() - i,
        {
            proof {
                lemma_decoded_rows_step(all, decode, i as int);
            }
            let ghost so_far = results@.map_values(|r: (String, u64)| (r.0@, r.1));
            match members[i].1.as_u64() {
                Some(count) => {
                    results.push((members[i].0.clone(), count));
                    assert(results@.map_values(|r: (String, u64)| (r.0@, r.1)) =~= so_far.push(
                        (members@[i as int].0@, count),
                    ));
                },
                None => {},
            }
            i = i + 1;
        }
        assert(all.take(i as int) =~= all);
        self.results = results;
        let url = match j.str_at("url") {
            Some(url) => url,
            None => { return Err(ToolsError::Json("['url'] is missing".to_owned())); },
        };
        self.url_used = url.to_owned();
        Ok(())
    }

    /// The address that the tool says it used for the last answer.
    pub fn url_used(&self) -> (r: &str)
        ensures
            r@ == self@.url_used,
    {
        self.url_used.as_str()
    }

    /// The rows read last: a missing topic and how often it is wanted.
    pub fn results(&self) -> (r: &[(String, u64)])
        ensures
            r@.map_values(|r: (String, u64)| (r.0@, r.1)) == self@.results,
    {
        self.results.as_slice()
    }

    pub fn site(&self) -> (r: &Site)
        ensures
            r@ == self@.site,
    {
        &self.site
    }

    /// The address that the query is sent to.
    pub fn tool_url(&self) -> (r: &str)
        ensures
            r@ == self@.tool_url,
    {
        self.tool_url.as_str()
    }
}

} // verus!
