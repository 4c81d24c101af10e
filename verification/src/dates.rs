//! Calendar dates and times of day as plain numbers.
//!
//! Validity, the day before, and reading and writing in a given format come
//! from the `chrono` crate; the two fixed spellings that requests need are
//! written here.
use chrono::{Datelike, Timelike};
use std::fmt::Write;
use vstd::prelude::*;
use vstd::string::*;
use crate::text::{decimal, u64_to_string};

verus! {

/// A day of the proleptic Gregorian calendar.
#[derive(Debug, Clone, Copy, PartialEq, Eq, Structural)]
pub struct Date {
    pub year: i32,
    pub month: u32,
    pub day: u32,
}

/// A day and a time of that day, to the second.
#[derive(Debug, Clone, Copy, PartialEq, Eq, Structural)]
pub struct DateTime {
    pub date: Date,
    pub hour: u32,
    pub minute: u32,
    pub second: u32,
}

/// Whether `year` is a leap year.
pub open spec fn is_leap_year(year: int) -> bool {
    year % 4 == 0 && (year % 100 != 0 || year % 400 == 0)
}

/// The number of days of a month, `0` for a month that does not exist.
pub open spec fn days_in_month(year: int, month: int) -> int {
    if month == 2 {
        if is_leap_year(year) {
            29
        } else {
            28
        }
    } else if month == 4 || month == 6 || month == 9 || month == 11 {
        30
    } else if 1 <= month <= 12 {
        31
    } else {
        0
    }
}

/// Whether the three numbers name a day that the calendar has and that lies
/// in the years that can be held.
pub open spec fn is_valid_date(year: int, month: int, day: int) -> bool {
    &&& -262143 <= year <= 262142
    &&& 1 <= month <= 12
    &&& 1 <= day <= days_in_month(year, month)
}

/// The day before a valid day, `None` where it lies before the first year
/// that can be held.
pub open spec fn day_before(date: Date) -> Option<Date> {
    if date.day > 1 {
        Some(Date { day: (date.day - 1) as u32, ..date })
    } else if date.month > 1 {
        Some(
            Date {
                month: (date.month - 1) as u32,
                day: days_in_month(date.year as int, date.month - 1) as u32,
                ..date
            },
        )
    } else if date.year > -262143 {
        Some(Date { year: (date.year - 1) as i32, month: 12, day: 31 })
    } else {
        None
    }
}

/// `n` zeros.
pub open spec fn zeros(n: nat) -> Seq<char> {
    Seq::new(n, |i: int| '0')
}

/// The decimal numeral of `n` with zeros in front up to `width` characters.
pub open spec fn padded(n: nat, width: nat) -> Seq<char> {
    if decimal(n).len() < width {
        zeros((width - decimal(n).len()) as nat) + decimal(n)
    } else {
        decimal(n)
    }
}

/// A year as dates spell it: four digits for the years 0 to 9999, else a
/// sign and at least four digits.
pub open spec fn year_text(year: int) -> Seq<char> {
    if 0 <= year <= 9999 {
        padded(year as nat, 4)
    } else if year < 0 {
        seq!['-'] + padded((-year) as nat, 4)
    } else {
        seq!['+'] + padded(year as nat, 4)
    }
}

/// A date as `YYYY-MM-DD`.
pub open spec fn iso_text(date: Date) -> Seq<char> {
    year_text(date.year as int) + "-"@ + padded(date.month as nat, 2) + "-"@ + padded(
        date.day as nat,
        2,
    )
}

/// A date as `YYYYMMDD`.
pub open spec fn compact_text(date: Date) -> Seq<char> {
    year_text(date.year as int) + padded(date.month as nat, 2) + padded(date.day as nat, 2)
}

/// A date and time as `YYYYMMDDhhmmss`.
pub open spec fn compact_datetime_text(dt: DateTime) -> Seq<char> {
    compact_text(dt.date) + padded(dt.hour as nat, 2) + padded(dt.minute as nat, 2) + padded(
        dt.second as nat,
        2,
    )
}

/// For a text and a format in the notation of `strftime`: the date that the
/// text spells in that format, `None` where it spells none.
pub uninterp spec fn parsed_date(text: Seq<char>, format: Seq<char>) -> Option<Date>;

/// For a text and a format in the notation of `strftime`: the date and time
/// that the text spells in that format, `None` where it spells none.
pub uninterp spec fn parsed_datetime(text: Seq<char>, format: Seq<char>) -> Option<DateTime>;

/// For a valid date and a format in the notation of `strftime`: the date
/// spelled in that format, `None` where the format cannot be used.
pub uninterp spec fn formatted_date(date: Date, format: Seq<char>) -> Option<Seq<char>>;

/// `chrono::NaiveDate::from_ymd_opt`: the date of the three numbers where
/// they name a day of the calendar within the years that `chrono` holds.
#[verifier::external_body]
fn chrono_from_ymd(year: i32, month: u32, day: u32) -> (r: Option<Date>)
    ensures
        r == (if is_valid_date(year as int, month as int, day as int) {
            Some(Date { year, month, day })
        } else {
            None::<Date>
        }),
{
    chrono::NaiveDate::from_ymd_opt(year, month, day).map(
        |d| Date { year: d.year(), month: d.month(), day: d.day() },
    )
}

/// `chrono::NaiveDate::pred_opt`: the day before a valid date, `None` at the
/// first day that `chrono` holds.
#[verifier::external_body]
fn chrono_pred(date: Date) -> (r: Option<Date>)
    requires
        is_valid_date(date.year as int, date.month as int, date.day as int),
    ensures
        r == day_before(date),
{
    chrono::NaiveDate::from_ymd_opt(date.year, date.month, date.day)?.pred_opt().map(
        |d| Date { year: d.year(), month: d.month(), day: d.day() },
    )
}

/// `chrono::NaiveDate::parse_from_str`: the result is what [`parsed_date`]
/// names; a date that comes back is valid.
#[verifier::external_body]
fn chrono_parse_date(text: &str, format: &str) -> (r: Option<Date>)
    ensures
        r == parsed_date(text@, format@),
        r matches Some(d) ==> is_valid_date(d.year as int, d.month as int, d.day as int),
{
    chrono::NaiveDate::parse_from_str(text, format).ok().map(
        |d| Date { year: d.year(), month: d.month(), day: d.day() },
    )
}

/// `chrono::NaiveDateTime::parse_from_str`: the result is what
/// [`parsed_datetime`] names, its fraction of a second left out; the date
/// of a result is valid.
#[verifier::external_body]
fn chrono_parse_datetime(text: &str, format: &str) -> (r: Option<DateTime>)
    ensures
        r == parsed_datetime(text@, format@),
        r matches Some(t) ==> is_valid_date(
            t.date.year as int,
            t.date.month as int,
            t.date.day as int,
        ),
{
    chrono::NaiveDateTime::parse_from_str(text, format).ok().map(
        |t|
            DateTime {
                date: Date { year: t.year(), month: t.month(), day: t.day() },
                hour: t.hour(),
                minute: t.minute(),
                second: t.second(),
            },
    )
}

/// `chrono::NaiveDate::format` written out: the result is what
/// [`formatted_date`] names.
#[verifier::external_body]
fn chrono_format_date(date: Date, format: &str) -> (r: Option<String>)
    requires
        is_valid_date(date.year as int, date.month as int, date.day as int),
    ensures
        match r {
            Some(s) => formatted_date(date, format@) == Some(s@),
            None => formatted_date(date, format@) is None,
        },
{
    let d = chrono::NaiveDate::from_ymd_opt(date.year, date.month, date.day)?;
    let mut out = String::new();
    write!(&mut out, "{}", d.format(format)).ok()?;
    Some(out)
}

/// The decimal numeral of `n` with zeros in front up to `width` characters.
pub fn padded_number(n: u64, width: usize) -> (r: String)
    ensures
        r@ == padded(n as nat, width as nat),
{
    let digits = u64_to_string(n);
    let len = digits.as_str().unicode_len();
    if len >= width {
        return digits;
    }
    let mut out = String::new();
    let mut k: usize = 0;
    while k < width - len
        invariant
            len < width,
            k <= width - len,
            out@ == zeros(k as nat),
        decreases width - len - k,
    {
        out.append("0");
        proof {
            reveal_strlit("0");
        }
        assert(out@ =~= zeros((k + 1) as nat));
        k = k + 1;
    }
    out.append(digits.as_str());
    out
}

/// A year as dates spell it.
pub fn year_string(year: i32) -> (r: String)
    ensures
        r@ == year_text(year as int),
{
    if 0 <= year && year <= 9999 {
        padded_number(year as u64, 4)
    } else if year < 0 {
        let magnitude: u64 = (-(year as i64)) as u64;
        let mut out = "-".to_owned();
        proof {
            reveal_strlit("-");
        }
        out.append(padded_number(magnitude, 4).as_str());
        assert(out@ =~= seq!['-'] + padded((-year) as nat, 4));
        out
    } else {
        let mut out = "+".to_owned();
        proof {
            reveal_strlit("+");
        }
        out.append(padded_number(year as u64, 4).as_str());
        assert(out@ =~= seq!['+'] + padded(year as nat, 4));
        out
    }
}

impl Default for Date {
    /// The first of January 1970.
    fn default() -> (r: Self)
        ensures
            r == (Date { year: 1970, month: 1, day: 1 }),
    {
        Date { year: 1970, month: 1, day: 1 }
    }
}

impl Default for DateTime {
    /// The start of the first of January 1970.
    fn default() -> (r: Self)
        ensures
            r == (DateTime {
                date: Date { year: 1970, month: 1, day: 1 },
                hour: 0,
                minute: 0,
                second: 0,
            }),
    {
        DateTime { date: Date { year: 1970, month: 1, day: 1 }, hour: 0, minute: 0, second: 0 }
    }
}

impl Date {
    /// Whether the date is a day that the calendar has.
    pub open spec fn is_valid(&self) -> bool {
        is_valid_date(self.year as int, self.month as int, self.day as int)
    }

    /// The date of a year, a month and a day, `None` where the calendar has
    /// no such day or the year is out of range.
    pub fn from_ymd_opt(year: i32, month: u32, day: u32) -> (r: Option<Date>)
        ensures
            r == (if is_valid_date(year as int, month as int, day as int) {
                Some(Date { year, month, day })
            } else {
                None::<Date>
            }),
    {
        chrono_from_ymd(year, month, day)
    }

    /// Whether the date is a day that the calendar has.
    pub fn check_valid(&self) -> (r: bool)
        ensures
            r == self.is_valid(),
    {
        chrono_from_ymd(self.year, self.month, self.day).is_some()
    }

    /// The day before, `None` for a date that is not valid and for the
    /// first day that can be held.
    pub fn pred_opt(&self) -> (r: Option<Date>)
        ensures
            r == (if self.is_valid() {
                day_before(*self)
            } else {
                None::<Date>
            }),
    {
        if self.check_valid() {
            chrono_pred(*self)
        } else {
            None
        }
    }

    /// Reads a date that `text` spells in `format`.
    pub fn parse_from_str(text: &str, format: &str) -> (r: Option<Date>)
        ensures
            r == parsed_date(text@, format@),
            r matches Some(d) ==> d.is_valid(),
    {
        chrono_parse_date(text, format)
    }

    /// The date spelled in `format`; `None` for a date that is not valid
    /// and for a format that cannot be used.
    pub fn format(&self, format: &str) -> (r: Option<String>)
        ensures
            match r {
                Some(s) => self.is_valid() && formatted_date(*self, format@) == Some(s@),
                None => !self.is_valid() || formatted_date(*self, format@) is None,
            },
    {
        if self.check_valid() {
            chrono_format_date(*self, format)
        } else {
            None
        }
    }

    /// The date as `YYYY-MM-DD`.
    pub fn to_iso(&self) -> (r: String)
        ensures
            r@ == iso_text(*self),
    {
        let mut out = year_string(self.year);
        out.append("-");
        out.append(padded_number(self.month as u64, 2).as_str());
        out.append("-");
        out.append(padded_number(self.day as u64, 2).as_str());
        out
    }

    /// The date as `YYYYMMDD`.
    pub fn to_compact(&self) -> (r: String)
        ensures
            r@ == compact_text(*self),
    {
        let mut out = year_string(self.year);
        out.append(padded_number(self.month as u64, 2).as_str());
        out.append(padded_number(self.day as u64, 2).as_str());
        out
    }

    /// The start of the day.
    pub fn and_midnight(&self) -> (r: DateTime)
        ensures
            r == (DateTime { date: *self, hour: 0, minute: 0, second: 0 }),
    {
        DateTime { date: *self, hour: 0, minute: 0, second: 0 }
    }
}

impl DateTime {
    /// Reads a date and time that `text` spells in `format`.
    pub fn parse_from_str(text: &str, format: &str) -> (r: Option<DateTime>)
        ensures
            r == parsed_datetime(text@, format@),
            r matches Some(t) ==> t.date.is_valid(),
    {
        chrono_parse_datetime(text, format)
    }

    /// The date and time as `YYYYMMDDhhmmss`.
    pub fn to_compact(&self) -> (r: String)
        ensures
            r@ == compact_datetime_text(*self),
    {
        let mut out = self.date.to_compact();
        out.append(padded_number(self.hour as u64, 2).as_str());
        out.append(padded_number(self.minute as u64, 2).as_str());
        out.append(padded_number(self.second as u64, 2).as_str());
        out
    }
}

} // verus!
