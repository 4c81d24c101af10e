//! The Persondata template tool: how a template is used on German Wikipedia.
//!
//! A [`PersondataTemplatesQuery`] describes what to look for; the tool answers
//! with a table of separated values, one record for each use of the template.
use std::collections::HashMap;
use vstd::prelude::*;
use vstd::string::*;
use crate::csv_table::{csv_table, read_csv, records_view};
use crate::error::ToolsError;
use crate::json::{decoded_rows, lemma_decoded_rows_step};
use crate::text::{decimal, lemma_concat_assoc, parse_u32, parse_u32_spec, str_eq, strings_view, u64_to_string};

verus! {

/// How the number of an occurrence is compared.
#[derive(Debug, PartialEq, Eq, Structural, Clone, Copy)]
pub enum PersondataTemplatesOccOp {
    Equal,
    Larger,
    Smaller,
}

/// How the value of a parameter is compared.
#[derive(Debug, PartialEq, Eq, Structural, Clone, Copy)]
pub enum PersondataTemplatesParamValueOp {
    Equal,
    Contains,
    Like,
    NotLike,
    Regexp,
    NotRegexp,
}

/// How the name of a parameter is compared.
#[derive(Debug, PartialEq, Eq, Structural, Clone, Copy)]
pub enum PersondataTemplatesParamNameOp {
    Equal,
    Unequal,
    Missing,
    Like,
    NotLike,
    Regexp,
    NotRegexp,
}

impl Default for PersondataTemplatesOccOp {
    fn default() -> (r: Self)
        ensures
            r == PersondataTemplatesOccOp::Equal,
    {
        PersondataTemplatesOccOp::Equal
    }
}

impl Default for PersondataTemplatesParamValueOp {
    fn default() -> (r: Self)
        ensures
            r == PersondataTemplatesParamValueOp::Equal,
    {
        PersondataTemplatesParamValueOp::Equal
    }
}

impl Default for PersondataTemplatesParamNameOp {
    fn default() -> (r: Self)
        ensures
            r == PersondataTemplatesParamNameOp::Equal,
    {
        PersondataTemplatesParamNameOp::Equal
    }
}

/// The word of the tool for a comparison of occurrences.
pub open spec fn occ_op_code(op: PersondataTemplatesOccOp) -> Seq<char> {
    match op {
        PersondataTemplatesOccOp::Equal => "eq"@,
        PersondataTemplatesOccOp::Larger => "gt"@,
        PersondataTemplatesOccOp::Smaller => "lt"@,
    }
}

/// The word of the tool for a comparison of parameter values.
pub open spec fn value_op_code(op: PersondataTemplatesParamValueOp) -> Seq<char> {
    match op {
        PersondataTemplatesParamValueOp::Equal => "eq"@,
        PersondataTemplatesParamValueOp::Contains => "hs"@,
        PersondataTemplatesParamValueOp::Like => "lk"@,
        PersondataTemplatesParamValueOp::NotLike => "nl"@,
        PersondataTemplatesParamValueOp::Regexp => "rx"@,
        PersondataTemplatesParamValueOp::NotRegexp => "nr"@,
    }
}

/// The word of the tool for a comparison of parameter names.
pub open spec fn name_op_code(op: PersondataTemplatesParamNameOp) -> Seq<char> {
    match op {
        PersondataTemplatesParamNameOp::Equal => "eq"@,
        PersondataTemplatesParamNameOp::Unequal => "ne"@,
        PersondataTemplatesParamNameOp::Missing => "miss"@,
        PersondataTemplatesParamNameOp::Like => "lk"@,
        PersondataTemplatesParamNameOp::NotLike => "nl"@,
        PersondataTemplatesParamNameOp::Regexp => "rx"@,
        PersondataTemplatesParamNameOp::NotRegexp => "nr"@,
    }
}

impl PersondataTemplatesOccOp {
    /// The word of the tool for this comparison.
    pub fn code(&self) -> (r: &'static str)
        ensures
            r@ == occ_op_code(*self),
    {
        match self {
            PersondataTemplatesOccOp::Equal => "eq",
            PersondataTemplatesOccOp::Larger => "gt",
            PersondataTemplatesOccOp::Smaller => "lt",
        }
    }
}

impl PersondataTemplatesParamValueOp {
    /// The word of the tool for this comparison.
    pub fn code(&self) -> (r: &'static str)
        ensures
            r@ == value_op_code(*self),
    {
        match self {
            PersondataTemplatesParamValueOp::Equal => "eq",
            PersondataTemplatesParamValueOp::Contains => "hs",
            PersondataTemplatesParamValueOp::Like => "lk",
            PersondataTemplatesParamValueOp::NotLike => "nl",
            PersondataTemplatesParamValueOp::Regexp => "rx",
            PersondataTemplatesParamValueOp::NotRegexp => "nr",
        }
    }
}

impl PersondataTemplatesParamNameOp {
    /// The word of the tool for this comparison.
    pub fn code(&self) -> (r: &'static str)
        ensures
            r@ == name_op_code(*self),
    {
        match self {
            PersondataTemplatesParamNameOp::Equal => "eq",
            PersondataTemplatesParamNameOp::Unequal => "ne",
            PersondataTemplatesParamNameOp::Missing => "miss",
            PersondataTemplatesParamNameOp::Like => "lk",
            PersondataTemplatesParamNameOp::NotLike => "nl",
            PersondataTemplatesParamNameOp::Regexp => "rx",
            PersondataTemplatesParamNameOp::NotRegexp => "nr",
        }
    }
}

/// What a [`PersondataTemplatesResult`] stands for.
pub struct PersondataTemplatesResultView {
    pub article: Seq<char>,
    pub usage_number: u32,
    pub params: Map<u32, Seq<char>>,
}

/// One use of the template: the article, the number of the use within the
/// article, and the values of the numbered parameters.
#[derive(Debug, Default)]
pub struct PersondataTemplatesResult {
    article: String,
    usage_number: u32,
    params: HashMap<u32, String>,
}

impl View for PersondataTemplatesResult {
    type V = PersondataTemplatesResultView;

    closed spec fn view(&self) -> PersondataTemplatesResultView {
        PersondataTemplatesResultView {
            article: self.article@,
            usage_number: self.usage_number,
            params: self.params@.map_values(|s: String| s@),
        }
    }
}

/// A result with nothing in it.
pub open spec fn empty_result() -> PersondataTemplatesResultView {
    PersondataTemplatesResultView { article: Seq::empty(), usage_number: 0, params: Map::empty() }
}

/// A result after one more column: the column `Artikel` names the article,
/// the column `Einbindung` gives the number of the use (`0` where it is no
/// number), a column whose name is a number gives the parameter of that
/// number, any other column is passed over.
pub open spec fn with_column(
    result: PersondataTemplatesResultView,
    name: Seq<char>,
    value: Seq<char>,
) -> PersondataTemplatesResultView {
    if name == "Artikel"@ {
        PersondataTemplatesResultView { article: value, ..result }
    } else if name == "Einbindung"@ {
        PersondataTemplatesResultView {
            usage_number: match parse_u32_spec(value) {
                Some(n) => n,
                None => 0,
            },
            ..result
        }
    } else {
        match parse_u32_spec(name) {
            Some(key) => PersondataTemplatesResultView {
                params: result.params.insert(key, value),
                ..result
            },
            None => result,
        }
    }
}

/// The result that the first `n` columns of a record give. A column beyond
/// the end of the record gives nothing.
pub open spec fn result_of_columns(header: Seq<Seq<char>>, record: Seq<Seq<char>>, n: int) -> PersondataTemplatesResultView
    decreases n,
{
    if n <= 0 {
        empty_result()
    } else {
        let before = result_of_columns(header, record, n - 1);
        if n - 1 < header.len() && n - 1 < record.len() {
            with_column(before, header[n - 1], record[n - 1])
        } else {
            before
        }
    }
}

/// The result that a record gives under a header.
pub open spec fn result_of_record(header: Seq<Seq<char>>, record: Seq<Seq<char>>) -> PersondataTemplatesResultView {
    result_of_columns(header, record, header.len() as int)
}

impl PersondataTemplatesResult {
    /// The result that a record gives under a header.
    pub fn from_record(header: &Vec<String>, record: &Vec<String>) -> (r: Self)
        ensures
            r@ == result_of_record(strings_view(header@), strings_view(record@)),
    {
        broadcast use vstd::std_specs::hash::group_hash_axioms;

        let ghost h = strings_view(header@);
        let ghost rec = strings_view(record@);
        let mut result = PersondataTemplatesResult {
            article: String::new(),
            usage_number: 0,
            params: HashMap::new(),
        };
        assert(result@.params =~= Map::empty());
        let mut i: usize = 0;
        while i < header.len()
            invariant
                i <= header.len(),
                h == strings_view(header@),
                rec == strings_view(record@),
                result@ == result_of_columns(h, rec, i as int),
            decreases header.len() - i,
        {
            if i < record.len() {
                let value = record[i].as_str();
                let name = header[i].as_str();
                assert(h[i as int] == name@);
                assert(rec[i as int] == value@);
                let ghost before = result@;
                if str_eq(name, "Artikel") {
                    result.article = value.to_owned();
                } else if str_eq(name, "Einbindung") {
                    result.usage_number = match parse_u32(value) {
                        Some(n) => n,
                        None => 0,
                    };
                } else {
                    match parse_u32(name) {
                        Some(key) => {
                            result.params.insert(key, value.to_owned());
                            assert(result@.params =~= before.params.insert(key, value@));
                        },
                        None => {},
                    }
                }
            }
            i = i + 1;
        }
        result
    }

    pub fn article(&self) -> (r: &str)
        ensures
            r@ == self@.article,
    {
        self.article.as_str()
    }

    /// The number of the use within the article ("Einbindung").
    pub fn usage_number(&self) -> (r: u32)
        ensures
            r == self@.usage_number,
    {
        self.usage_number
    }

    /// The values of the numbered parameters.
    pub fn params(&self) -> (r: &HashMap<u32, String>)
        ensures
            r@.map_values(|s: String| s@) == self@.params,
    {
        &self.params
    }
}

/// What a [`PersondataTemplatesQuery`] stands for.
pub struct PersondataTemplatesQueryView {
    pub with_wl: bool,
    pub tmpl: Seq<char>,
    pub occ: Option<u32>,
    pub occ_op: PersondataTemplatesOccOp,
    pub in_t: bool,
    pub in_v: bool,
    pub in_r: bool,
    pub in_l: bool,
    pub in_a: bool,
    pub param_name: Seq<char>,
    pub param_name_op: PersondataTemplatesParamNameOp,
    pub param_value: Seq<char>,
    pub param_value_op: PersondataTemplatesParamValueOp,
    pub in_c: bool,
    pub case: bool,
}

/// What to look for: a template, and restrictions on where it stands and on
/// its parameters.
#[derive(Debug, Default)]
pub struct PersondataTemplatesQuery {
    /// Follow redirects to the template.
    pub with_wl: bool,
    /// The name of the template.
    pub tmpl: String,
    /// Which use within an article to look at.
    pub occ: Option<u32>,
    pub occ_op: PersondataTemplatesOccOp,
    /// Only uses that stand directly in a table.
    pub in_t: bool,
    /// Only uses that stand directly in another template.
    pub in_v: bool,
    /// Only uses that stand directly in a reference.
    pub in_r: bool,
    /// Only uses that stand directly in a file link.
    pub in_l: bool,
    /// Only uses that stand directly in the article.
    pub in_a: bool,
    /// The name of a parameter; several names are separated by `|`.
    pub param_name: String,
    pub param_name_op: PersondataTemplatesParamNameOp,
    /// The value of a parameter.
    pub param_value: String,
    pub param_value_op: PersondataTemplatesParamValueOp,
    /// Search the text of comments in parameter values too.
    pub in_c: bool,
    /// Tell capitals from small letters in parameter values.
    pub case: bool,
}

impl View for PersondataTemplatesQuery {
    type V = PersondataTemplatesQueryView;

    open spec fn view(&self) -> PersondataTemplatesQueryView {
        PersondataTemplatesQueryView {
            with_wl: self.with_wl,
            tmpl: self.tmpl@,
            occ: self.occ,
            occ_op: self.occ_op,
            in_t: self.in_t,
            in_v: self.in_v,
            in_r: self.in_r,
            in_l: self.in_l,
            in_a: self.in_a,
            param_name: self.param_name@,
            param_name_op: self.param_name_op,
            param_value: self.param_value@,
            param_value_op: self.param_value_op,
            in_c: self.in_c,
            case: self.case,
        }
    }
}

/// A query with nothing set.
pub open spec fn empty_query() -> PersondataTemplatesQueryView {
    PersondataTemplatesQueryView {
        with_wl: false,
        tmpl: Seq::empty(),
        occ: None,
        occ_op: PersondataTemplatesOccOp::Equal,
        in_t: false,
        in_v: false,
        in_r: false,
        in_l: false,
        in_a: false,
        param_name: Seq::empty(),
        param_name_op: PersondataTemplatesParamNameOp::Equal,
        param_value: Seq::empty(),
        param_value_op: PersondataTemplatesParamValueOp::Equal,
        in_c: false,
        case: false,
    }
}

/// `text` where `on` holds, nothing otherwise.
pub open spec fn when(on: bool, text: Seq<char>) -> Seq<char> {
    if on {
        text
    } else {
        Seq::empty()
    }
}

/// The part of the address that names the template.
pub open spec fn template_part(q: PersondataTemplatesQueryView) -> Seq<char> {
    when(q.tmpl.len() > 0, "&tmpl="@ + q.tmpl + when(q.with_wl, "&with_wl"@))
}

/// The part of the address that restricts the occurrence.
pub open spec fn occurrence_part(q: PersondataTemplatesQueryView) -> Seq<char> {
    match q.occ {
        Some(occ) => "&occ="@ + decimal(occ as nat) + when(
            q.occ_op != PersondataTemplatesOccOp::Equal,
            "&occ_op="@ + occ_op_code(q.occ_op),
        ),
        None => Seq::empty(),
    }
}

/// The part of the address that restricts the parameter name.
pub open spec fn name_part(q: PersondataTemplatesQueryView) -> Seq<char> {
    when(
        q.param_name.len() > 0,
        "&param="@ + q.param_name + when(
            q.param_name_op != PersondataTemplatesParamNameOp::Equal,
            "&param_name_op="@ + name_op_code(q.param_name_op),
        ),
    )
}

/// The part of the address that restricts the parameter value.
pub open spec fn value_part(q: PersondataTemplatesQueryView) -> Seq<char> {
    when(
        q.param_value.len() > 0,
        "&value="@ + q.param_value + when(
            q.param_value_op != PersondataTemplatesParamValueOp::Equal,
            "&param_value_op="@ + value_op_code(q.param_value_op),
        ),
    )
}

/// The part of the address that holds the switches.
pub open spec fn switches_part(q: PersondataTemplatesQueryView) -> Seq<char> {
    when(q.in_t, "&in_t"@) + when(q.in_v, "&in_v"@) + when(q.in_r, "&in_r"@) + when(
        q.in_l,
        "&in_l"@,
    ) + when(q.in_a, "&in_a"@) + when(q.in_c, "&in_c"@) + when(q.case, "&case"@)
}

/// The address of the table that answers a query.
pub open spec fn csv_address(q: PersondataTemplatesQueryView) -> Seq<char> {
    "https://persondata.toolforge.org/vorlagen/index.php?export=1&tzoffset=0&show_occ&show_param&show_value"@
        + template_part(q) + occurrence_part(q) + name_part(q) + value_part(q) + switches_part(q)
}

/// The result of a record of the table, `None` for a broken record.
pub open spec fn result_of_row(header: Seq<Seq<char>>, record: Option<Seq<Seq<char>>>) -> Option<
    PersondataTemplatesResultView,
> {
    match record {
        Some(fields) => Some(result_of_record(header, fields)),
        None => None,
    }
}

/// The views of a list of results, in order.
pub open spec fn results_view(results: Seq<PersondataTemplatesResult>) -> Seq<
    PersondataTemplatesResultView,
> {
    results.map_values(|r: PersondataTemplatesResult| r@)
}

/// Appends `text` where `on` holds.
fn append_when(url: &mut String, on: bool, text: &str)
    ensures
        final(url)@ == old(url)@ + when(on, text@),
{
    if on {
        url.append(text);
    }
    assert(url@ =~= old(url)@ + when(on, text@));
}

impl PersondataTemplatesQuery {
    /// A query with nothing set.
    pub fn new() -> (r: Self)
        ensures
            r@ == empty_query(),
    {
        PersondataTemplatesQuery {
            with_wl: false,
            tmpl: String::new(),
            occ: None,
            occ_op: PersondataTemplatesOccOp::Equal,
            in_t: false,
            in_v: false,
            in_r: false,
            in_l: false,
            in_a: false,
            param_name: String::new(),
            param_name_op: PersondataTemplatesParamNameOp::Equal,
            param_value: String::new(),
            param_value_op: PersondataTemplatesParamValueOp::Equal,
            in_c: false,
            case: false,
        }
    }

    /// A query for the template `tmpl` and the redirects to it.
    pub fn with_template(tmpl: &str) -> (r: Self)
        ensures
            r@ == (PersondataTemplatesQueryView { tmpl: tmpl@, with_wl: true, ..empty_query() }),
    {
        let mut r = Self::new();
        r.tmpl = tmpl.to_owned();
        r.with_wl = true;
        r
    }

    /// Looks at the use with the number `occ` only.
    pub fn with_occurrence(self, occ: u32) -> (r: Self)
        ensures
            r@ == (PersondataTemplatesQueryView {
                occ: Some(occ),
                occ_op: PersondataTemplatesOccOp::Equal,
                ..self@
            }),
    {
        self.with_occurrence_op(occ, PersondataTemplatesOccOp::Equal)
    }

    /// Looks at the uses whose number compares to `occ` as `occ_op` says.
    pub fn with_occurrence_op(self, occ: u32, occ_op: PersondataTemplatesOccOp) -> (r: Self)
        ensures
            r@ == (PersondataTemplatesQueryView { occ: Some(occ), occ_op, ..self@ }),
    {
        let mut r = self;
        r.occ = Some(occ);
        r.occ_op = occ_op;
        r
    }

    pub fn in_table(self) -> (r: Self)
        ensures
            r@ == (PersondataTemplatesQueryView { in_t: true, ..self@ }),
    {
        let mut r = self;
        r.in_t = true;
        r
    }

    pub fn in_template(self) -> (r: Self)
        ensures
            r@ == (PersondataTemplatesQueryView { in_v: true, ..self@ }),
    {
        let mut r = self;
        r.in_v = true;
        r
    }

    pub fn in_reference(self) -> (r: Self)
        ensures
            r@ == (PersondataTemplatesQueryView { in_r: true, ..self@ }),
    {
        let mut r = self;
        r.in_r = true;
        r
    }

    pub fn in_wikilink(self) -> (r: Self)
        ensures
            r@ == (PersondataTemplatesQueryView { in_l: true, ..self@ }),
    {
        let mut r = self;
        r.in_l = true;
        r
    }

    pub fn in_article(self) -> (r: Self)
        ensures
            r@ == (PersondataTemplatesQueryView { in_a: true, ..self@ }),
    {
        let mut r = self;
        r.in_a = true;
        r
    }

    pub fn in_comments(self) -> (r: Self)
        ensures
            r@ == (PersondataTemplatesQueryView { in_c: true, ..self@ }),
    {
        let mut r = self;
        r.in_c = true;
        r
    }

    pub fn case_sensitive(self) -> (r: Self)
        ensures
            r@ == (PersondataTemplatesQueryView { case: true, ..self@ }),
    {
        let mut r = self;
        r.case = true;
        r
    }

    /// Looks at the parameter with the name `param_name`.
    pub fn parameter_name(self, param_name: &str) -> (r: Self)
        ensures
            r@ == (PersondataTemplatesQueryView {
                param_name: param_name@,
                param_name_op: PersondataTemplatesParamNameOp::Equal,
                ..self@
            }),
    {
        self.parameter_name_op(param_name, PersondataTemplatesParamNameOp::Equal)
    }

    /// Looks at the parameters whose name compares to `param_name` as
    /// `param_name_op` says.
    pub fn parameter_name_op(
        self,
        param_name: &str,
        param_name_op: PersondataTemplatesParamNameOp,
    ) -> (r: Self)
        ensures
            r@ == (PersondataTemplatesQueryView { param_name: param_name@, param_name_op, ..self@ }),
    {
        let mut r = self;
        r.param_name = param_name.to_owned();
        r.param_name_op = param_name_op;
        r
    }

    /// Looks at parameters with the value `param_value`.
    pub fn parameter_value(self, param_value: &str) -> (r: Self)
        ensures
            r@ == (PersondataTemplatesQueryView {
                param_value: param_value@,
                param_value_op: PersondataTemplatesParamValueOp::Equal,
                ..self@
            }),
    {
        self.parameter_value_op(param_value, PersondataTemplatesParamValueOp::Equal)
    }

    /// Looks at the parameters whose value compares to `param_value` as
    /// `param_value_op` says.
    pub fn parameter_value_op(
        self,
        param_value: &str,
        param_value_op: PersondataTemplatesParamValueOp,
    ) -> (r: Self)
        ensures
            r@ == (PersondataTemplatesQueryView {
                param_value: param_value@,
                param_value_op,
                ..self@
            }),
    {
        let mut r = self;
        r.param_value = param_value.to_owned();
        r.param_value_op = param_value_op;
        r
    }

    fn append_template_part(&self, url: &mut String)
        ensures
            final(url)@ == old(url)@ + template_part(self@),
    {
        if self.tmpl.as_str().unicode_len() > 0 {
            url.append("&tmpl=");
            url.append(self.tmpl.as_str());
            append_when(url, self.with_wl, "&with_wl");
        }
        assert(url@ =~= old(url)@ + template_part(self@));
    }

    fn append_occurrence_part(&self, url: &mut String)
        ensures
            final(url)@ == old(url)@ + occurrence_part(self@),
    {
        match self.occ {
            Some(occ) => {
                url.append("&occ=");
                url.append(u64_to_string(occ as u64).as_str());
                if self.occ_op != PersondataTemplatesOccOp::Equal {
                    url.append("&occ_op=");
                    url.append(self.occ_op.code());
                }
            },
            None => {},
        }
        assert(url@ =~= old(url)@ + occurrence_part(self@));
    }

    fn append_name_part(&self, url: &mut String)
        ensures
            final(url)@ == old(url)@ + name_part(self@),
    {
        if self.param_name.as_str().unicode_len() > 0 {
            url.append("&param=");
            url.append(self.param_name.as_str());
            if self.param_name_op != PersondataTemplatesParamNameOp::Equal {
                url.append("&param_name_op=");
                url.append(self.param_name_op.code());
            }
        }
        assert(url@ =~= old(url)@ + name_part(self@));
    }

    fn append_value_part(&self, url: &mut String)
        ensures
            final(url)@ == old(url)@ + value_part(self@),
    {
        if self.param_value.as_str().unicode_len() > 0 {
            url.append("&value=");
            url.append(self.param_value.as_str());
            if self.param_value_op != PersondataTemplatesParamValueOp::Equal {
                url.append("&param_value_op=");
                url.append(self.param_value_op.code());
            }
        }
        assert(url@ =~= old(url)@ + value_part(self@));
    }

    fn append_switches_part(&self, url: &mut String)
        ensures
            final(url)@ == old(url)@ + switches_part(self@),
    {
        let ghost start = url@;
        append_when(url, self.in_t, "&in_t");
        let ghost w1 = when(self.in_t, "&in_t"@);
        let ghost w2 = when(self.in_v, "&in_v"@);
        let ghost w3 = when(self.in_r, "&in_r"@);
        let ghost w4 = when(self.in_l, "&in_l"@);
        let ghost w5 = when(self.in_a, "&in_a"@);
        let ghost w6 = when(self.in_c, "&in_c"@);
        let ghost w7 = when(self.case, "&case"@);
        append_when(url, self.in_v, "&in_v");
        proof {
            lemma_concat_assoc(start, w1, w2);
        }
        append_when(url, self.in_r, "&in_r");
        proof {
            lemma_concat_assoc(start, w1 + w2, w3);
        }
        append_when(url, self.in_l, "&in_l");
        proof {
            lemma_concat_assoc(start, w1 + w2 + w3, w4);
        }
        append_when(url, self.in_a, "&in_a");
        proof {
            lemma_concat_assoc(start, w1 + w2 + w3 + w4, w5);
        }
        append_when(url, self.in_c, "&in_c");
        proof {
            lemma_concat_assoc(start, w1 + w2 + w3 + w4 + w5, w6);
        }
        append_when(url, self.case, "&case");
        proof {
            lemma_concat_assoc(start, w1 + w2 + w3 + w4 + w5 + w6, w7);
        }
        assert(url@ == old(url)@ + switches_part(self@));
    }

    /// The address of the table that answers the query.
    pub fn generate_csv_url(&self) -> (r: String)
        ensures
            r@ == csv_address(self@),
    {
        let mut url =
            "https://persondata.toolforge.org/vorlagen/index.php?export=1&tzoffset=0&show_occ&show_param&show_value".to_owned();
        self.append_template_part(&mut url);
        self.append_occurrence_part(&mut url);
        self.append_name_part(&mut url);
        self.append_value_part(&mut url);
        self.append_switches_part(&mut url);
        url
    }

    /// The results that the records of a table give under its header, in
    /// order; a broken record is passed over.
    pub fn results_from_records(
        header: &Vec<String>,
        records: &Vec<Result<Vec<String>, csv::Error>>,
    ) -> (r: Vec<PersondataTemplatesResult>)
        ensures
            results_view(r@) == decoded_rows(
                records_view(records@),
                |rec: Option<Seq<Seq<char>>>| result_of_row(strings_view(header@), rec),
            ),
    {
        let ghost h = strings_view(header@);
        let ghost all = records_view(records@);
        let ghost decode = |rec: Option<Seq<Seq<char>>>| result_of_row(h, rec);
        let mut results: Vec<PersondataTemplatesResult> = Vec::new();
        let mut i: usize = 0;
        assert(all.take(0) =~= Seq::<Option<Seq<Seq<char>>>>::empty());
        assert(results_view(results@) =~= Seq::empty());
        while i < records.len()
            invariant
                i <= records.len(),
                h == strings_view(header@),
                all == records_view(records@),
                decode == |rec: Option<Seq<Seq<char>>>| result_of_row(h, rec),
                results_view(results@) == decoded_rows(all.take(i as int), decode),
            decreases records.len() - i,
        {
            proof {
                lemma_decoded_rows_step(all, decode, i as int);
            }
            let ghost so_far = results_view(results@);
            match &records[i] {
                Ok(fields) => {
                    let row = PersondataTemplatesResult::from_record(header, fields);
                    let ghost view = row@;
                    results.push(row);
                    assert(results_view(results@) =~= so_far.push(view));
                },
                Err(_) => {},
            }
            i = i + 1;
        }
        assert(all.take(i as int) =~= all);
        results
    }

    /// Reads the answer of the tool, a table with `;` between the fields and
    /// a header record: one result for each record, broken records passed
    /// over. A table without a readable header is refused.
    pub fn results_from_csv(&self, body: &str) -> (r: Result<
        Vec<PersondataTemplatesResult>,
        ToolsError,
    >)
        ensures
            match csv_table(body@, 59u8, true, true) {
                Some(table) => r matches Ok(results) && results_view(results@) == decoded_rows(
                    table.1,
                    |rec: Option<Seq<Seq<char>>>| result_of_row(table.0, rec),
                ),
                None => r matches Err(ToolsError::Csv(_)),
            },
    {
        match read_csv(body, 59u8, true, true) {
            Ok(table) => Ok(Self::results_from_records(&table.0, &table.1)),
            Err(e) => Err(ToolsError::Csv(e)),
        }
    }
}

} // verus!
