//! PagePile: stored lists of pages, fetched by their number.
use vstd::prelude::*;
use vstd::string::*;
use crate::error::{error_view, ToolsError, ToolsErrorView};
use crate::fancy_title::option_view;
use crate::json::{decoded_rows, items_view, lemma_decoded_rows_step, JsonValue, JsonView};
use crate::site::{site_of_language_project, site_of_wiki, Site, SiteView};
use crate::text::{decimal, i64_to_string, signed_decimal, strings_view, u64_to_string};

verus! {

/// What a [`PagePile`] stands for.
pub struct PagePileView {
    pub id: u32,
    pub prefixed_titles: Seq<Seq<char>>,
    pub language: Option<Seq<char>>,
    pub project: Option<Seq<char>>,
    pub wiki: Option<Seq<char>>,
}

/// A pile of pages, known by its number.
#[derive(Debug, Default, PartialEq)]
pub struct PagePile {
    id: u32,
    prefixed_titles: Vec<String>,
    language: Option<String>,
    project: Option<String>,
    wiki: Option<String>,
}

impl View for PagePile {
    type V = PagePileView;

    closed spec fn view(&self) -> PagePileView {
        PagePileView {
            id: self.id,
            prefixed_titles: strings_view(self.prefixed_titles@),
            language: option_view(self.language),
            project: option_view(self.project),
            wiki: option_view(self.wiki),
        }
    }
}

/// The address of the pile with the number `id`.
pub open spec fn pile_address(id: u32) -> Seq<char> {
    "https://pagepile.toolforge.org/api.php?id="@ + decimal(id as nat)
        + "&action=get_data&doit&format=json"@
}

/// The site of a pile: that of its wiki where the pile names one, else that
/// of its language and project where it names both.
pub open spec fn site_of_pile(pile: PagePileView) -> Option<SiteView> {
    match pile.wiki {
        Some(wiki) => site_of_wiki(wiki),
        None => match (pile.language, pile.project) {
            (Some(language), Some(project)) => Some(site_of_language_project(language, project)),
            _ => None,
        },
    }
}

/// The message that tells that fewer pages came than the pile holds.
pub open spec fn returned_mismatch(returned: i64, total: i64) -> Seq<char> {
    "pages_returned ("@ + signed_decimal(returned as int) + ") != pages_total ("@ + signed_decimal(
        total as int,
    ) + ")"@
}

/// The message that tells that the number of titles is not the total.
pub open spec fn total_mismatch(total: i64, titles: nat) -> Seq<char> {
    "pages_total ("@ + signed_decimal(total as int) + ") != prefixed_titles.len() ("@ + decimal(
        titles,
    ) + ")"@
}

/// What the answer of the tool makes of a pile, and the failure that it
/// reports. The pile takes language, project, wiki and titles from the answer
/// before the counts are looked at.
pub open spec fn pile_after(pile: PagePileView, j: JsonView) -> (PagePileView, Option<ToolsErrorView>) {
    let named = PagePileView {
        language: j.at("language"@).as_str(),
        project: j.at("project"@).as_str(),
        wiki: j.at("wiki"@).as_str(),
        ..pile
    };
    match j.at("pages"@).as_array() {
        None => (named, Some(ToolsErrorView::Json("['pages'] has no rows array"@))),
        Some(entries) => {
            let titles = decoded_rows(entries, |e: JsonView| e.as_str());
            let filled = PagePileView { prefixed_titles: titles, ..named };
            match j.at("pages_returned"@).as_i64() {
                None => (filled, Some(ToolsErrorView::Json("['pages_returned'] is not an integer"@))),
                Some(returned) => match j.at("pages_total"@).as_i64() {
                    None => (
                        filled,
                        Some(ToolsErrorView::Json("['pages_total'] is not an integer"@)),
                    ),
                    Some(total) => if returned != total {
                        (filled, Some(ToolsErrorView::Json(returned_mismatch(returned, total))))
                    } else if total != titles.len() {
                        (filled, Some(ToolsErrorView::Json(total_mismatch(total, titles.len()))))
                    } else {
                        (filled, None)
                    },
                },
            }
        },
    }
}

impl PagePile {
    /// The pile with the number `id`, not fetched yet.
    pub fn new(id: u32) -> (r: Self)
        ensures
            r@ == (PagePileView {
                id,
                prefixed_titles: Seq::empty(),
                language: None,
                project: None,
                wiki: None,
            }),
    {
        let r = PagePile {
            id,
            prefixed_titles: Vec::new(),
            language: None,
            project: None,
            wiki: None,
        };
        assert(strings_view(r.prefixed_titles@) =~= Seq::empty());
        r
    }

    /// The number of the pile.
    pub fn id(&self) -> (r: u32)
        ensures
            r == self@.id,
    {
        self.id
    }

    /// The titles of the pages in the pile, with their namespace prefix.
    pub fn prefixed_titles(&self) -> (r: &[String])
        ensures
            strings_view(r@) == self@.prefixed_titles,
    {
        self.prefixed_titles.as_slice()
    }

    /// The language of the pile, if known.
    pub fn language(&self) -> (r: Option<&String>)
        ensures
            match r {
                Some(s) => self@.language == Some(s@),
                None => self@.language is None,
            },
    {
        self.language.as_ref()
    }

    /// The project of the pile, if known.
    pub fn project(&self) -> (r: Option<&String>)
        ensures
            match r {
                Some(s) => self@.project == Some(s@),
                None => self@.project is None,
            },
    {
        self.project.as_ref()
    }

    /// The wiki of the pile, if known.
    pub fn wiki(&self) -> (r: Option<&String>)
        ensures
            match r {
                Some(s) => self@.wiki == Some(s@),
                None => self@.wiki is None,
            },
    {
        self.wiki.as_ref()
    }

    /// The site of the pile, where the wiki, or the language and the project,
    /// are known and name one.
    pub fn site(&self) -> (r: Option<Site>)
        ensures
            match r {
                Some(site) => site_of_pile(self@) == Some(site@),
                None => site_of_pile(self@) is None,
            },
    {
        match &self.wiki {
            Some(wiki) => Site::from_wiki(wiki.as_str()),
            None => match (&self.language, &self.project) {
                (Some(language), Some(project)) => Some(
                    Site::from_language_project(language.as_str(), project.as_str()),
                ),
                _ => None,
            },
        }
    }

    /// The address to fetch the pile from.
    pub fn get_url(&self) -> (r: String)
        ensures
            r@ == pile_address(self@.id),
    {
        let mut url = "https://pagepile.toolforge.org/api.php?id=".to_owned();
        url.append(u64_to_string(self.id as u64).as_str());
        url.append("&action=get_data&doit&format=json");
        url
    }

    /// Reads the answer of the tool: language, project and wiki where the
    /// answer names them, the strings of `pages` as titles, and the two counts
    /// `pages_returned` and `pages_total`, which have to agree with each other
    /// and with the number of titles.
    pub fn set_from_json(&mut self, j: &JsonValue) -> (r: Result<(), ToolsError>)
        ensures
            final(self)@ == pile_after(old(self)@, j@).0,
            match r {
                Ok(_) => pile_after(old(self)@, j@).1 is None,
                Err(e) => pile_after(old(self)@, j@).1 == Some(error_view(e)),
            },
    {
        self.language = match j.str_at("language") {
            Some(s) => Some(s.to_owned()),
            None => None,
        };
        self.project = match j.str_at("project") {
            Some(s) => Some(s.to_owned()),
            None => None,
        };
        self.wiki = match j.str_at("wiki") {
            Some(s) => Some(s.to_owned()),
            None => None,
        };
        let entries = match j.array_at("pages") {
            Some(entries) => entries,
            None => { return Err(ToolsError::Json("['pages'] has no rows array".to_owned())); },
        };
        let ghost all = items_view(entries@);
        let ghost decode = |e: JsonView| e.as_str();
        let mut titles: Vec<String> = Vec::new();
        let mut i: usize = 0;
        assert(all.take(0) =~= Seq::<JsonView>::empty());
        while i < entries.len()
            invariant
                i <= entries.len(),
                all == items_view(entries@),
                decode == |e: JsonView| e.as_str(),
                strings_view(titles@) == decoded_rows(all.take(i as int), decode),
            decreases entries.len() - i,
        {
            proof {
                lemma_decoded_rows_step(all, decode, i as int);
            }
            let ghost so_far = strings_view(titles@);
            match entries[i].as_str() {
                Some(title) => {
                    titles.push(title.to_owned());
                    assert(strings_view(titles@) =~= so_far.push(title@));
                },
                None => {},
            }
            i = i + 1;
        }
        assert(all.take(i as int) =~= all);
        self.prefixed_titles = titles;
        let pages_returned = match j.i64_at("pages_returned") {
            Some(n) => n,
            None => {
                return Err(ToolsError::Json("['pages_returned'] is not an integer".to_owned()));
            },
        };
        let pages_total = match j.i64_at("pages_total") {
            Some(n) => n,
            None => {
                return Err(ToolsError::Json("['pages_total'] is not an integer".to_owned()));
            },
        };
        if pages_returned != pages_total {
            let mut message = "pages_returned (".to_owned();
            message.append(i64_to_string(pages_returned).as_str());
            message.append(") != pages_total (");
            message.append(i64_to_string(pages_total).as_str());
            message.append(")");
            return Err(ToolsError::Json(message));
        }
        let count = self.prefixed_titles.len();
        if pages_total < 0 || pages_total as u64 != count as u64 {
            let mut message = "pages_total (".to_owned();
            message.append(i64_to_string(pages_total).as_str());
            message.append(") != prefixed_titles.len() (");
            message.append(u64_to_string(count as u64).as_str());
            message.append(")");
            return Err(ToolsError::Json(message));
        }
        Ok(())
    }
}

} // verus!
