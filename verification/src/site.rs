//! A wiki, named by its database name or by its language and project.
//!
//! [`Site::from_wiki`] takes a database name apart; [`Site::from_language_project`]
//! puts one together. Both are plain string rules, stated here over `Seq<char>`.
use vstd::prelude::*;
use vstd::string::*;
use crate::json::{members_view, JsonValue, JsonView};
use crate::text::{
    ends_with, is_whitespace, lemma_replaced_absent, lemma_trimmed_fixed, lowercased, replace_char, replaced, str_ends_with, str_eq, substring, to_ascii_lowercase,
    to_chars, trim, trimmed,
};

verus! {

/// What a [`Site`] stands for.
pub struct SiteView {
    pub wiki: Seq<char>,
    pub language: Seq<char>,
    pub project: Seq<char>,
}

/// The canonical spelling of a database name: hyphens become underscores, white
/// space at the ends is dropped, ASCII capitals become lower case.
pub open spec fn normalized_wiki(w: Seq<char>) -> Seq<char> {
    lowercased(trimmed(replaced(w, '-', '_')))
}

/// Whether a project token can start at `i`: `wik` stands there, at least one
/// more character follows, and at least one character comes before.
pub open spec fn token_starts_at(s: Seq<char>, i: int) -> bool {
    &&& 1 <= i
    &&& i + 4 <= s.len()
    &&& s[i] == 'w'
    &&& s[i + 1] == 'i'
    &&& s[i + 2] == 'k'
}

/// The first index at or after `from` where a project token can start.
pub open spec fn first_token_from(s: Seq<char>, from: int) -> Option<int>
    decreases s.len() - from,
{
    if from + 4 > s.len() {
        None
    } else if token_starts_at(s, from) {
        Some(from)
    } else {
        first_token_from(s, from + 1)
    }
}

/// Where the project token of a regular database name starts: the leftmost
/// place where one can, so that the token is the longest trailing run that
/// begins with `wik`. A name that holds a line feed has none.
pub open spec fn token_start(s: Seq<char>) -> Option<int> {
    if s.contains('\n') {
        None
    } else {
        first_token_from(s, 1)
    }
}

/// The project that a token names: `wiki` is Wikipedia, a token that ends in
/// `wiki` names the project before that suffix, any other token names itself.
pub open spec fn project_of_token(token: Seq<char>) -> Seq<char> {
    if token == "wiki"@ {
        "wikipedia"@
    } else if ends_with(token, "wiki"@) {
        token.subrange(0, token.len() - 4)
    } else {
        token
    }
}

/// The site that a database name denotes, `None` where the name is not recognised.
pub open spec fn site_of_wiki(w: Seq<char>) -> Option<SiteView> {
    let wiki = normalized_wiki(w);
    if wiki == "commonswiki"@ {
        Some(SiteView { wiki, language: "commons"@, project: "wikimedia"@ })
    } else if wiki == "wikidatawiki"@ {
        Some(SiteView { wiki, language: "www"@, project: "wikidata"@ })
    } else if wiki == "specieswiki"@ {
        Some(SiteView { wiki, language: "species"@, project: "wikimedia"@ })
    } else if wiki == "metawiki"@ {
        Some(SiteView { wiki, language: "meta"@, project: "wikimedia"@ })
    } else {
        match token_start(wiki) {
            Some(i) => Some(
                SiteView {
                    wiki,
                    language: wiki.subrange(0, i),
                    project: project_of_token(wiki.subrange(i, wiki.len() as int)),
                },
            ),
            None => None,
        }
    }
}

/// The database name of a language and a project.
pub open spec fn wiki_of_language_project(language: Seq<char>, project: Seq<char>) -> Seq<char> {
    if project == "wikimedia"@ || project == "wikipedia"@ {
        language + "wiki"@
    } else if project == "wikidata"@ {
        "wikidatawiki"@
    } else {
        language + project + "wiki"@
    }
}

/// The site of a language and a project.
pub open spec fn site_of_language_project(language: Seq<char>, project: Seq<char>) -> SiteView {
    SiteView { wiki: wiki_of_language_project(language, project), language, project }
}

/// `language.project`, the language written with hyphens.
pub open spec fn language_project_of(site: SiteView) -> Seq<char> {
    replaced(site.language, '_', '-') + "."@ + site.project
}

/// The host name of the site's web server.
pub open spec fn webserver_of(site: SiteView) -> Seq<char> {
    language_project_of(site) + ".org"@
}

/// The members that describe a site in a page document.
pub open spec fn site_members(site: SiteView) -> Seq<(Seq<char>, JsonView)> {
    seq![
        ("wiki"@, JsonView::String(site.wiki)),
        ("language"@, JsonView::String(site.language)),
        ("project"@, JsonView::String(site.project)),
    ]
}

/// The object that describes a site in a page document.
pub open spec fn site_document(site: SiteView) -> JsonView {
    JsonView::Object(site_members(site))
}

/// A MediaWiki site: database name, language code and project name.
#[derive(Debug, Default, PartialEq)]
pub struct Site {
    wiki: String,
    language: String,
    project: String,
}

impl View for Site {
    type V = SiteView;

    closed spec fn view(&self) -> SiteView {
        SiteView { wiki: self.wiki@, language: self.language@, project: self.project@ }
    }
}

impl Clone for Site {
    fn clone(&self) -> (r: Self)
        ensures
            r == *self,
    {
        Site {
            wiki: self.wiki.clone(),
            language: self.language.clone(),
            project: self.project.clone(),
        }
    }
}

proof fn lemma_first_token_from(s: Seq<char>, from: int)
    requires
        1 <= from,
    ensures
        match first_token_from(s, from) {
            Some(i) => from <= i && token_starts_at(s, i) && forall|j: int|
                from <= j < i ==> !token_starts_at(s, j),
            None => forall|j: int| from <= j ==> !token_starts_at(s, j),
        },
    decreases s.len() - from,
{
    if from + 4 > s.len() {
    } else if token_starts_at(s, from) {
    } else {
        lemma_first_token_from(s, from + 1);
    }
}

/// The start of the project token is the least index where one can start.
pub proof fn lemma_token_start_is_leftmost(s: Seq<char>)
    ensures
        match token_start(s) {
            Some(i) => !s.contains('\n') && token_starts_at(s, i) && forall|j: int|
                j < i ==> !token_starts_at(s, j),
            None => s.contains('\n') || forall|j: int| !token_starts_at(s, j),
        },
{
    lemma_first_token_from(s, 1);
}

/// A database name without hyphens, ASCII capitals and white space at its
/// ends is in canonical spelling already.
pub proof fn lemma_canonical_wiki_is_fixed(w: Seq<char>)
    requires
        !w.contains('-'),
        forall|i: int| 0 <= i < w.len() ==> !('A' <= #[trigger] w[i] && w[i] <= 'Z'),
        w.len() > 0 ==> !is_whitespace(w[0]) && !is_whitespace(w[w.len() - 1]),
    ensures
        normalized_wiki(w) == w,
{
    lemma_replaced_absent(w, '-', '_');
    lemma_trimmed_fixed(w);
    assert(lowercased(w) =~= w);
}

/// A database name of the regular shape: one of the four special names, or a
/// language followed by `wiki`, or a language, a project other than Wikimedia,
/// Wikipedia and Wikidata, and `wiki`.
pub open spec fn is_regular_wiki(w: Seq<char>) -> bool {
    let wiki = normalized_wiki(w);
    ||| wiki == "commonswiki"@
    ||| wiki == "wikidatawiki"@
    ||| wiki == "specieswiki"@
    ||| wiki == "metawiki"@
    ||| match token_start(wiki) {
        Some(i) => {
            let token = wiki.subrange(i, wiki.len() as int);
            let project = token.subrange(0, token.len() - 4);
            ||| token == "wiki"@
            ||| (ends_with(token, "wiki"@) && project != "wikimedia"@ && project != "wikipedia"@
                && project != "wikidata"@)
        },
        None => false,
    }
}

/// Round trip: a regular database name is recognised, and the database name
/// built from its language and project is the name itself in canonical spelling.
pub proof fn lemma_wiki_round_trip(w: Seq<char>)
    requires
        is_regular_wiki(w),
    ensures
        site_of_wiki(w) is Some,
        wiki_of_language_project(site_of_wiki(w).unwrap().language, site_of_wiki(w).unwrap().project)
            == normalized_wiki(w),
        normalized_wiki(w) == w ==> site_of_language_project(
            site_of_wiki(w).unwrap().language,
            site_of_wiki(w).unwrap().project,
        ).wiki == w,
{
    reveal_strlit("commonswiki");
    reveal_strlit("wikidatawiki");
    reveal_strlit("specieswiki");
    reveal_strlit("metawiki");
    reveal_strlit("commons");
    reveal_strlit("www");
    reveal_strlit("species");
    reveal_strlit("meta");
    reveal_strlit("wikimedia");
    reveal_strlit("wikipedia");
    reveal_strlit("wikidata");
    reveal_strlit("wiki");
    let wiki = normalized_wiki(w);
    let site = site_of_wiki(w).unwrap();
    if wiki == "commonswiki"@ {
        assert("commons"@ + "wiki"@ =~= "commonswiki"@);
    } else if wiki == "wikidatawiki"@ {
        assert("wikidata"@.len() != "wikimedia"@.len());
    } else if wiki == "specieswiki"@ {
        assert("species"@ + "wiki"@ =~= "specieswiki"@);
    } else if wiki == "metawiki"@ {
        assert("meta"@ + "wiki"@ =~= "metawiki"@);
    } else {
        let i = token_start(wiki).unwrap();
        lemma_token_start_is_leftmost(wiki);
        let language = wiki.subrange(0, i);
        let token = wiki.subrange(i, wiki.len() as int);
        if token == "wiki"@ {
            assert(language + "wiki"@ =~= wiki);
            } else {
            let project = token.subrange(0, token.len() - 4);
            assert(token.subrange(token.len() - 4, token.len() as int) == "wiki"@);
            assert(project + "wiki"@ =~= token);
            assert(language + project + "wiki"@ =~= wiki);
            assert(site.project == project);
            }
    }
}

impl Site {
    /// The canonical spelling of a database name.
    pub fn normalize_wiki(wiki: &str) -> (r: String)
        ensures
            r@ == normalized_wiki(wiki@),
    {
        let hyphens_gone = replace_char(wiki, '-', '_');
        let cut = trim(hyphens_gone.as_str());
        to_ascii_lowercase(cut.as_str())
    }

    /// The site of a database name such as `enwiki`; `None` where the name is
    /// not recognised.
    #[verifier::loop_isolation(false)]
    pub fn from_wiki(wiki: &str) -> (r: Option<Site>)
        ensures
            match r {
                Some(site) => site_of_wiki(wiki@) == Some(site@),
                None => site_of_wiki(wiki@) is None,
            },
    {
        let wiki = Self::normalize_wiki(wiki);
        if str_eq(wiki.as_str(), "commonswiki") {
            return Some(
                Site { wiki, language: "commons".to_owned(), project: "wikimedia".to_owned() },
            );
        }
        if str_eq(wiki.as_str(), "wikidatawiki") {
            return Some(Site { wiki, language: "www".to_owned(), project: "wikidata".to_owned() });
        }
        if str_eq(wiki.as_str(), "specieswiki") {
            return Some(
                Site { wiki, language: "species".to_owned(), project: "wikimedia".to_owned() },
            );
        }
        if str_eq(wiki.as_str(), "metawiki") {
            return Some(
                Site { wiki, language: "meta".to_owned(), project: "wikimedia".to_owned() },
            );
        }
        let v = to_chars(wiki.as_str());
        let mut k: usize = 0;
        while k < v.len()
            invariant
                k <= v.len(),
                forall|j: int| 0 <= j < k ==> v@[j] != '\n',
            decreases v.len() - k,
        {
            if v[k] == '\n' {
                assert(v@[k as int] == '\n');
                return None;
            }
            k = k + 1;
        }
        assert(!v@.contains('\n'));
        let mut i: usize = 1;
        while i < v.len() && v.len() - i >= 4
            invariant
                1 <= i,
                first_token_from(v@, 1) == first_token_from(v@, i as int),
            decreases v.len() - i,
        {
            if v[i] == 'w' && v[i + 1] == 'i' && v[i + 2] == 'k' {
                break;
            }
            i = i + 1;
        }
        if !(i < v.len() && v.len() - i >= 4) {
            return None;
        }
        assert(first_token_from(v@, 1) == Some(i as int));
        let language = substring(&v, 0, i);
        let token = substring(&v, i, v.len());
        let token_chars = to_chars(token.as_str());
        let suffix = to_chars("wiki");
        proof {
            reveal_strlit("wiki");
        }
        let project = if str_eq(token.as_str(), "wiki") {
            "wikipedia".to_owned()
        } else if str_ends_with(&token_chars, &suffix) {
            substring(&token_chars, 0, token_chars.len() - 4)
        } else {
            token
        };
        Some(Site { wiki, language, project })
    }

    /// The site of a language code and a project name.
    pub fn from_language_project(language: &str, project: &str) -> (r: Site)
        ensures
            r@ == site_of_language_project(language@, project@),
    {
        let wiki = if str_eq(project, "wikimedia") || str_eq(project, "wikipedia") {
            let mut w = language.to_owned();
            w.append("wiki");
            w
        } else if str_eq(project, "wikidata") {
            "wikidatawiki".to_owned()
        } else {
            let mut w = language.to_owned();
            w.append(project);
            w.append("wiki");
            w
        };
        Site { wiki, language: language.to_owned(), project: project.to_owned() }
    }

    /// `language.project`, with hyphens for the underscores of the language.
    pub fn language_project(&self) -> (r: String)
        ensures
            r@ == language_project_of(self@),
    {
        let mut r = replace_char(self.language.as_str(), '_', '-');
        r.append(".");
        r.append(self.project.as_str());
        r
    }

    /// The web server of the site, such as `en.wikipedia.org`.
    pub fn webserver(&self) -> (r: String)
        ensures
            r@ == webserver_of(self@),
    {
        let mut r = self.language_project();
        r.append(".org");
        r
    }

    /// The database name, such as `enwiki`.
    pub fn wiki(&self) -> (r: &str)
        ensures
            r@ == self@.wiki,
    {
        self.wiki.as_str()
    }

    /// The language code, such as `en`.
    pub fn language(&self) -> (r: &str)
        ensures
            r@ == self@.language,
    {
        self.language.as_str()
    }

    /// The project name, such as `wikipedia`.
    pub fn project(&self) -> (r: &str)
        ensures
            r@ == self@.project,
    {
        self.project.as_str()
    }

    /// The object that describes the site in a page document.
    pub fn to_json(&self) -> (r: JsonValue)
        ensures
            r@ == site_document(self@),
    {
        let mut members: Vec<(String, JsonValue)> = Vec::new();
        members.push(("wiki".to_owned(), JsonValue::string(self.wiki.as_str())));
        members.push(("language".to_owned(), JsonValue::string(self.language.as_str())));
        members.push(("project".to_owned(), JsonValue::string(self.project.as_str())));
        let ghost listed = members_view(members@);
        let r = JsonValue::object(members);
        assert(listed =~= site_members(self@));
        r
    }

    /// Whether two sites are the same: all three parts agree.
    pub fn same_as(&self, other: &Site) -> (r: bool)
        ensures
            r == (self@ == other@),
    {
        self.wiki == other.wiki && self.language == other.language && self.project
            == other.project
    }
}

} // verus!
