//! XTools "pages": the pages that a user has created on a wiki.
//!
//! The tool answers with a table of tab-separated values.
use vstd::prelude::*;
use vstd::string::*;
use crate::dates::{iso_text, parsed_datetime, Date, DateTime};
use crate::error::ToolsError;
use crate::json::{decoded_rows, lemma_decoded_rows_step};
use crate::site::{webserver_of, Site, SiteView};
use crate::text::{
    decimal, lemma_split_fields_len, parse_u32, parse_u32_spec, split_char, split_fields, strings_view, u64_to_string,
};

verus! {

/// What an [`XtoolsPagesResult`] stands for.
pub struct XtoolsPagesResultView {
    pub title: Seq<char>,
    pub namespace_id: u32,
    pub date: DateTime,
    pub original_size: u32,
    pub current_size: u32,
    pub assessment: Seq<char>,
}

/// One page that the user created.
#[derive(Debug, PartialEq)]
pub struct XtoolsPagesResult {
    pub title: String,
    pub namespace_id: u32,
    pub date: DateTime,
    pub original_size: u32,
    pub current_size: u32,
    pub assessment: String,
}

impl View for XtoolsPagesResult {
    type V = XtoolsPagesResultView;

    open spec fn view(&self) -> XtoolsPagesResultView {
        XtoolsPagesResultView {
            title: self.title@,
            namespace_id: self.namespace_id,
            date: self.date,
            original_size: self.original_size,
            current_size: self.current_size,
            assessment: self.assessment@,
        }
    }
}

/// The format in which the tool spells the date of creation.
pub open spec fn creation_format() -> Seq<char> {
    "%Y-%m-%d %H:%M"@
}

/// The page that the fields of a row give once the date has been read: the
/// row has to have six fields, of which the first, the fourth and the fifth
/// spell numbers, and its date has to be there.
pub open spec fn result_of_fields(fields: Seq<Seq<char>>, date: Option<DateTime>) -> Option<
    XtoolsPagesResultView,
> {
    if fields.len() != 6 {
        None
    } else {
        match (parse_u32_spec(fields[0]), parse_u32_spec(fields[3]), parse_u32_spec(fields[4]), date) {
            (Some(namespace_id), Some(original_size), Some(current_size), Some(date)) => Some(
                XtoolsPagesResultView {
                    title: fields[1],
                    namespace_id,
                    date,
                    original_size,
                    current_size,
                    assessment: fields[5],
                },
            ),
            _ => None,
        }
    }
}

/// The date that the fields of a row spell: that of the third field.
pub open spec fn date_of_fields(fields: Seq<Seq<char>>) -> Option<DateTime> {
    if fields.len() > 2 {
        parsed_datetime(fields[2], creation_format())
    } else {
        None
    }
}

/// The page that a row of the table gives.
pub open spec fn result_of_row(row: Seq<char>) -> Option<XtoolsPagesResultView> {
    let fields = split_fields(row, '\t');
    result_of_fields(fields, date_of_fields(fields))
}

impl XtoolsPagesResult {
    /// The page of a row that has been split into fields and whose date has
    /// been read already.
    pub fn from_fields(fields: &Vec<String>, date: Option<DateTime>) -> (r: Option<Self>)
        ensures
            match r {
                Some(page) => result_of_fields(strings_view(fields@), date) == Some(page@),
                None => result_of_fields(strings_view(fields@), date) is None,
            },
    {
        if fields.len() != 6 {
            return None;
        }
        let ghost f = strings_view(fields@);
        assert(f[0] == fields@[0]@ && f[1] == fields@[1]@ && f[3] == fields@[3]@ && f[4]
            == fields@[4]@ && f[5] == fields@[5]@);
        let namespace_id = match parse_u32(fields[0].as_str()) {
            Some(n) => n,
            None => { return None; },
        };
        let original_size = match parse_u32(fields[3].as_str()) {
            Some(n) => n,
            None => { return None; },
        };
        let current_size = match parse_u32(fields[4].as_str()) {
            Some(n) => n,
            None => { return None; },
        };
        let date = match date {
            Some(d) => d,
            None => { return None; },
        };
        Some(
            XtoolsPagesResult {
                title: fields[1].clone(),
                namespace_id,
                date,
                original_size,
                current_size,
                assessment: fields[5].clone(),
            },
        )
    }

    /// Reads one row of the table: six fields with tabs between them.
    pub fn from_tsv_row(row: &str) -> (r: Option<Self>)
        ensures
            match r {
                Some(page) => result_of_row(row@) == Some(page@),
                None => result_of_row(row@) is None,
            },
    {
        let fields = split_char(row, '\t');
        let ghost f = strings_view(fields@);
        let date = if fields.len() > 2 {
            assert(f[2] == fields@[2]@);
            DateTime::parse_from_str(fields[2].as_str(), "%Y-%m-%d %H:%M")
        } else {
            None
        };
        Self::from_fields(&fields, date)
    }
}

/// Which pages to list with regard to deletion.
#[derive(Debug, PartialEq, Eq, Structural, Clone, Copy)]
pub enum DeletedPages {
    All,
    Live,
    Deleted,
}

/// Which pages to list with regard to redirects.
#[derive(Debug, PartialEq, Eq, Structural, Clone, Copy)]
pub enum Redirects {
    NoRedirects,
    All,
    OnlyRedirects,
}

impl Default for DeletedPages {
    fn default() -> (r: Self)
        ensures
            r == DeletedPages::All,
    {
        DeletedPages::All
    }
}

impl Default for Redirects {
    fn default() -> (r: Self)
        ensures
            r == Redirects::All,
    {
        Redirects::All
    }
}

/// The word of the tool for a choice with regard to deletion.
pub open spec fn deleted_pages_word(d: DeletedPages) -> Seq<char> {
    match d {
        DeletedPages::All => "all"@,
        DeletedPages::Live => "live"@,
        DeletedPages::Deleted => "deleted"@,
    }
}

/// The word of the tool for a choice with regard to redirects.
pub open spec fn redirects_word(r: Redirects) -> Seq<char> {
    match r {
        Redirects::NoRedirects => "noredirects"@,
        Redirects::All => "all"@,
        Redirects::OnlyRedirects => "onlyredirects"@,
    }
}

impl DeletedPages {
    /// The word of the tool for this choice.
    pub fn as_str(&self) -> (r: &'static str)
        ensures
            r@ == deleted_pages_word(*self),
    {
        match self {
            DeletedPages::All => "all",
            DeletedPages::Live => "live",
            DeletedPages::Deleted => "deleted",
        }
    }
}

impl Redirects {
    /// The word of the tool for this choice.
    pub fn as_str(&self) -> (r: &'static str)
        ensures
            r@ == redirects_word(*self),
    {
        match self {
            Redirects::NoRedirects => "noredirects",
            Redirects::All => "all",
            Redirects::OnlyRedirects => "onlyredirects",
        }
    }
}

/// What an [`XtoolsPages`] stands for.
pub struct XtoolsPagesView {
    pub site: SiteView,
    pub user: Seq<char>,
    pub namespace_id: Option<u32>,
    pub redirects: Redirects,
    pub deleted_pages: DeletedPages,
    pub start_date: Option<Date>,
    pub end_date: Option<Date>,
    pub results: Seq<XtoolsPagesResultView>,
}

/// A query for the pages that `user` created on `site`.
#[derive(Debug, PartialEq)]
pub struct XtoolsPages {
    site: Site,
    user: String,
    namespace_id: Option<u32>,
    redirects: Redirects,
    deleted_pages: DeletedPages,
    start_date: Option<Date>,
    end_date: Option<Date>,
    results: Vec<XtoolsPagesResult>,
}

impl View for XtoolsPages {
    type V = XtoolsPagesView;

    closed spec fn view(&self) -> XtoolsPagesView {
        XtoolsPagesView {
            site: self.site@,
            user: self.user@,
            namespace_id: self.namespace_id,
            redirects: self.redirects,
            deleted_pages: self.deleted_pages,
            start_date: self.start_date,
            end_date: self.end_date,
            results: self.results@.map_values(|r: XtoolsPagesResult| r@),
        }
    }
}

/// The date to ask with: the one that is set, else the first of January 1970.
pub open spec fn date_or_default(date: Option<Date>) -> Date {
    match date {
        Some(d) => d,
        None => Date { year: 1970, month: 1, day: 1 },
    }
}

/// The namespace to ask with: the one that is set, else the main namespace.
pub open spec fn namespace_or_main(namespace_id: Option<u32>) -> nat {
    match namespace_id {
        Some(n) => n as nat,
        None => 0,
    }
}

/// The address of a query.
pub open spec fn pages_address(q: XtoolsPagesView) -> Seq<char> {
    "https://xtools.wmcloud.org/pages/"@ + webserver_of(q.site) + "/"@ + q.user + "/"@ + decimal(
        namespace_or_main(q.namespace_id),
    ) + "/"@ + redirects_word(q.redirects) + "/"@ + deleted_pages_word(q.deleted_pages) + "/"@
        + iso_text(date_or_default(q.start_date)) + "/"@ + iso_text(date_or_default(q.end_date))
        + "?format=tsv"@
}

/// The pages that the rows of a table give: the first row, the header, is
/// left out, a row that gives no page is passed over.
pub open spec fn results_of_rows(rows: Seq<Seq<char>>) -> Seq<XtoolsPagesResultView> {
    decoded_rows(rows.skip(1), |row: Seq<char>| result_of_row(row))
}

impl XtoolsPages {
    /// A query for `user` on `site`: main namespace, redirects and deleted
    /// pages included, no span of time.
    pub fn new(site: Site, user: &str) -> (r: Self)
        ensures
            r@ == (XtoolsPagesView {
                site: site@,
                user: user@,
                namespace_id: None,
                redirects: Redirects::All,
                deleted_pages: DeletedPages::All,
                start_date: None,
                end_date: None,
                results: Seq::empty(),
            }),
    {
        let r = XtoolsPages {
            site,
            user: user.to_owned(),
            namespace_id: None,
            redirects: Redirects::All,
            deleted_pages: DeletedPages::All,
            start_date: None,
            end_date: None,
            results: Vec::new(),
        };
        assert(r.results@.map_values(|r: XtoolsPagesResult| r@) =~= Seq::empty());
        r
    }

    pub fn with_namespace_id(self, namespace_id: u32) -> (r: Self)
        ensures
            r@ == (XtoolsPagesView { namespace_id: Some(namespace_id), ..self@ }),
    {
        let mut r = self;
        r.namespace_id = Some(namespace_id);
        r
    }

    pub fn with_redirects(self, redirects: Redirects) -> (r: Self)
        ensures
            r@ == (XtoolsPagesView { redirects, ..self@ }),
    {
        let mut r = self;
        r.redirects = redirects;
        r
    }

    pub fn with_deleted_pages(self, deleted_pages: DeletedPages) -> (r: Self)
        ensures
            r@ == (XtoolsPagesView { deleted_pages, ..self@ }),
    {
        let mut r = self;
        r.deleted_pages = deleted_pages;
        r
    }

    pub fn with_start_date(self, start_date: Date) -> (r: Self)
        ensures
            r@ == (XtoolsPagesView { start_date: Some(start_date), ..self@ }),
    {
        let mut r = self;
        r.start_date = Some(start_date);
        r
    }

    pub fn with_end_date(self, end_date: Date) -> (r: Self)
        ensures
            r@ == (XtoolsPagesView { end_date: Some(end_date), ..self@ }),
    {
        let mut r = self;
        r.end_date = Some(end_date);
        r
    }

    /// The pages read last.
    pub fn results(&self) -> (r: &[XtoolsPagesResult])
        ensures
            r@.map_values(|r: XtoolsPagesResult| r@) == self@.results,
    {
        self.results.as_slice()
    }

    pub fn site(&self) -> (r: &Site)
        ensures
            r@ == self@.site,
    {
        &self.site
    }

    pub fn user(&self) -> (r: &str)
        ensures
            r@ == self@.user,
    {
        self.user.as_str()
    }

    pub fn namespace_id(&self) -> (r: Option<u32>)
        ensures
            r == self@.namespace_id,
    {
        self.namespace_id
    }

    pub fn start_date(&self) -> (r: Option<Date>)
        ensures
            r == self@.start_date,
    {
        self.start_date
    }

    pub fn end_date(&self) -> (r: Option<Date>)
        ensures
            r == self@.end_date,
    {
        self.end_date
    }

    pub fn redirects(&self) -> (r: &Redirects)
        ensures
            *r == self@.redirects,
    {
        &self.redirects
    }

    pub fn deleted_pages(&self) -> (r: &DeletedPages)
        ensures
            *r == self@.deleted_pages,
    {
        &self.deleted_pages
    }

    /// The address to fetch the answer from.
    pub fn get_url(&self) -> (r: String)
        ensures
            r@ == pages_address(self@),
    {
        let namespace_id: u32 = match self.namespace_id {
            Some(n) => n,
            None => 0,
        };
        let start = match self.start_date {
            Some(d) => d,
            None => Date { year: 1970, month: 1, day: 1 },
        };
        let end = match self.end_date {
            Some(d) => d,
            None => Date { year: 1970, month: 1, day: 1 },
        };
        let mut url = "https://xtools.wmcloud.org/pages/".to_owned();
        url.append(self.site.webserver().as_str());
        url.append("/");
        url.append(self.user.as_str());
        url.append("/");
        url.append(u64_to_string(namespace_id as u64).as_str());
        url.append("/");
        url.append(self.redirects.as_str());
        url.append("/");
        url.append(self.deleted_pages.as_str());
        url.append("/");
        url.append(start.to_iso().as_str());
        url.append("/");
        url.append(end.to_iso().as_str());
        url.append("?format=tsv");
        url
    }

    /// Reads the answer of the tool, a table with one row to a line: the
    /// pages of the rows after the header replace the results.
    pub fn set_from_text(&mut self, text: &str) -> (r: Result<(), ToolsError>)
        ensures
            r is Ok,
            final(self)@ == (XtoolsPagesView {
                results: results_of_rows(split_fields(text@, '\n')),
                ..old(self)@
            }),
    {
        let rows = split_char(text, '\n');
        proof {
            lemma_split_fields_len(text@, '\n');
        }
        let ghost all = strings_view(rows@).skip(1);
        let ghost decode = |row: Seq<char>| result_of_row(row);
        let mut results: Vec<XtoolsPagesResult> = Vec::new();
        let mut i: usize = 1;
        assert(all.take(0) =~= Seq::<Seq<char>>::empty());
        assert(results@.map_values(|r: XtoolsPagesResult| r@) =~= Seq::empty());
        while i < rows.len()
            invariant
                1 <= i <= rows.len(),
                all == strings_view(rows@).skip(1),
                decode == |row: Seq<char>| result_of_row(row),
                results@.map_values(|r: XtoolsPagesResult| r@) == decoded_rows(
                    all.take(i - 1),
                    decode,
                ),
            decreases rows.len() - i,
        {
            proof {
                lemma_decoded_rows_step(all, decode, i - 1);
                assert(all[i - 1] == rows@[i as int]@);
            }
            let ghost so_far = results@.map_values(|r: XtoolsPagesResult| r@);
            match XtoolsPagesResult::from_tsv_row(rows[i].as_str()) {
                Some(page) => {
                    let ghost view = page@;
                    results.push(page);
                    assert(results@.map_values(|r: XtoolsPagesResult| r@) =~= so_far.push(view));
                },
                None => {},
            }
            i = i + 1;
        }
        assert(all.take(i - 1) =~= all);
        self.results = results;
        Ok(())
    }
}

} // verus!
