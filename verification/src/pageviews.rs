//! The Wikimedia pageviews service: how often a page was viewed.
//!
//! A request names a project, a page and a span of days; the answer lists
//! the views for each hour, day or month of the span. The service asks a
//! client that is too fast to wait; [`Pageviews::next_step`] decides what to
//! do with a response.
use vstd::prelude::*;
use vstd::string::*;
use crate::dates::{compact_text, is_valid_date, padded, padded_number, Date};
use crate::error::ToolsError;
use crate::json::{decoded_rows, items_view, lemma_decoded_rows_step, JsonValue, JsonView};
use crate::text::{
    parse_u64, parse_u64_spec, parse_unsigned, replace_char, replaced, substring, to_chars,
};

verus! {

/// The kind of device or program that a view came through.
#[derive(Debug, PartialEq, Eq, Structural, Clone, Copy)]
pub enum PageviewsAccess {
    All,
    Desktop,
    MobileApp,
    MobileWeb,
}

/// The kind of visitor that a view came from.
#[derive(Debug, PartialEq, Eq, Structural, Clone, Copy)]
pub enum PageviewsAgent {
    All,
    User,
    Spider,
    Automated,
}

/// The length of the spans that views are counted over.
#[derive(Debug, PartialEq, Eq, Structural, Clone, Copy)]
pub enum PageviewsGranularity {
    Hourly,
    Daily,
    Monthly,
}

/// The word of the service for a kind of access.
pub open spec fn access_word(a: PageviewsAccess) -> Seq<char> {
    match a {
        PageviewsAccess::All => "all-access"@,
        PageviewsAccess::Desktop => "desktop"@,
        PageviewsAccess::MobileApp => "mobile-app"@,
        PageviewsAccess::MobileWeb => "mobile-web"@,
    }
}

/// The word of the service for a kind of visitor.
pub open spec fn agent_word(a: PageviewsAgent) -> Seq<char> {
    match a {
        PageviewsAgent::All => "all-agents"@,
        PageviewsAgent::User => "user"@,
        PageviewsAgent::Spider => "spider"@,
        PageviewsAgent::Automated => "automated"@,
    }
}

/// The word of the service for a granularity.
pub open spec fn granularity_word(g: PageviewsGranularity) -> Seq<char> {
    match g {
        PageviewsGranularity::Hourly => "hourly"@,
        PageviewsGranularity::Daily => "daily"@,
        PageviewsGranularity::Monthly => "monthly"@,
    }
}

impl PageviewsAccess {
    /// The word of the service for this kind of access.
    pub fn as_str(&self) -> (r: &'static str)
        ensures
            r@ == access_word(*self),
    {
        match self {
            PageviewsAccess::All => "all-access",
            PageviewsAccess::Desktop => "desktop",
            PageviewsAccess::MobileApp => "mobile-app",
            PageviewsAccess::MobileWeb => "mobile-web",
        }
    }
}

impl PageviewsAgent {
    /// The word of the service for this kind of visitor.
    pub fn as_str(&self) -> (r: &'static str)
        ensures
            r@ == agent_word(*self),
    {
        match self {
            PageviewsAgent::All => "all-agents",
            PageviewsAgent::User => "user",
            PageviewsAgent::Spider => "spider",
            PageviewsAgent::Automated => "automated",
        }
    }
}

impl PageviewsGranularity {
    /// The word of the service for this granularity.
    pub fn as_str(&self) -> (r: &'static str)
        ensures
            r@ == granularity_word(*self),
    {
        match self {
            PageviewsGranularity::Hourly => "hourly",
            PageviewsGranularity::Daily => "daily",
            PageviewsGranularity::Monthly => "monthly",
        }
    }
}

/// The hour that a count belongs to.
#[derive(Debug, PartialEq, Eq, Structural, Clone, Copy)]
pub struct PageviewsTimestamp {
    pub year: u16,
    pub month: u8,
    pub day: u8,
    pub hour: u8,
}

/// The number that the characters `from..to` of a text spell, where it is at
/// most `max`.
pub open spec fn number_in(text: Seq<char>, from: int, to: int, max: nat) -> Option<nat> {
    match parse_unsigned(text.subrange(from, to)) {
        Some(n) => if n <= max {
            Some(n)
        } else {
            None
        },
        None => None,
    }
}

/// The hour that a text of ten characters or more spells: four for the year,
/// two each for month, day and hour.
pub open spec fn timestamp_of(text: Seq<char>) -> Option<PageviewsTimestamp> {
    if text.len() < 10 {
        None
    } else {
        match (
            number_in(text, 0, 4, 0xFFFF),
            number_in(text, 4, 6, 0xFF),
            number_in(text, 6, 8, 0xFF),
            number_in(text, 8, 10, 0xFF),
        ) {
            (Some(year), Some(month), Some(day), Some(hour)) => Some(
                PageviewsTimestamp {
                    year: year as u16,
                    month: month as u8,
                    day: day as u8,
                    hour: hour as u8,
                },
            ),
            _ => None,
        }
    }
}

/// An hour as the service spells it: ten digits.
pub open spec fn timestamp_text(t: PageviewsTimestamp) -> Seq<char> {
    padded(t.year as nat, 4) + padded(t.month as nat, 2) + padded(t.day as nat, 2) + padded(
        t.hour as nat,
        2,
    )
}

fn read_number(v: &Vec<char>, from: usize, to: usize, max: u64) -> (r: Option<u64>)
    requires
        from <= to <= v.len(),
    ensures
        match r {
            Some(n) => number_in(v@, from as int, to as int, max as nat) == Some(n as nat),
            None => number_in(v@, from as int, to as int, max as nat) is None,
        },
{
    let part = substring(v, from, to);
    match parse_u64(part.as_str()) {
        Some(n) => if n <= max {
            Some(n)
        } else {
            None
        },
        None => None,
    }
}

impl PageviewsTimestamp {
    /// Reads an hour from the first ten characters of a text.
    pub fn parse(item: &str) -> (r: Option<Self>)
        ensures
            r == timestamp_of(item@),
    {
        let v = to_chars(item);
        if v.len() < 10 {
            return None;
        }
        let year = read_number(&v, 0, 4, 0xFFFF);
        let month = read_number(&v, 4, 6, 0xFF);
        let day = read_number(&v, 6, 8, 0xFF);
        let hour = read_number(&v, 8, 10, 0xFF);
        match (year, month, day, hour) {
            (Some(year), Some(month), Some(day), Some(hour)) => Some(
                PageviewsTimestamp {
                    year: year as u16,
                    month: month as u8,
                    day: day as u8,
                    hour: hour as u8,
                },
            ),
            _ => None,
        }
    }

    /// The hour as the service spells it.
    pub fn to_text(&self) -> (r: String)
        ensures
            r@ == timestamp_text(*self),
    {
        let mut out = padded_number(self.year as u64, 4);
        out.append(padded_number(self.month as u64, 2).as_str());
        out.append(padded_number(self.day as u64, 2).as_str());
        out.append(padded_number(self.hour as u64, 2).as_str());
        out
    }
}

/// The views of one span.
#[derive(Debug, PartialEq, Eq, Structural, Clone, Copy)]
pub struct PageviewsParams {
    pub timestamp: PageviewsTimestamp,
    pub views: u64,
}

/// The count that an entry of the answer gives: it has one where `timestamp`
/// spells an hour and `views` is a count.
pub open spec fn params_of_entry(item: JsonView) -> Option<PageviewsParams> {
    match (item.at("timestamp"@).as_str(), item.at("views"@).as_u64()) {
        (Some(ts), Some(views)) => match timestamp_of(ts) {
            Some(timestamp) => Some(PageviewsParams { timestamp, views }),
            None => None,
        },
        _ => None,
    }
}

impl PageviewsParams {
    /// Reads one entry of the answer.
    pub fn from_json(item: &JsonValue) -> (r: Option<Self>)
        ensures
            r == params_of_entry(item@),
    {
        let ts = match item.str_at("timestamp") {
            Some(ts) => ts,
            None => { return None; },
        };
        let timestamp = match PageviewsTimestamp::parse(ts) {
            Some(t) => t,
            None => { return None; },
        };
        let views = match item.u64_at("views") {
            Some(v) => v,
            None => { return None; },
        };
        Some(PageviewsParams { timestamp, views })
    }
}

/// What a [`PageviewsResult`] stands for.
pub struct PageviewsResultView {
    pub project: Seq<char>,
    pub article: Seq<char>,
    pub granularity: PageviewsGranularity,
    pub access: PageviewsAccess,
    pub agent: PageviewsAgent,
    pub entries: Seq<PageviewsParams>,
}

/// The views of one page over a span of time.
#[derive(Debug, PartialEq)]
pub struct PageviewsResult {
    pub project: String,
    pub article: String,
    pub granularity: PageviewsGranularity,
    pub access: PageviewsAccess,
    pub agent: PageviewsAgent,
    pub entries: Vec<PageviewsParams>,
}

impl View for PageviewsResult {
    type V = PageviewsResultView;

    open spec fn view(&self) -> PageviewsResultView {
        PageviewsResultView {
            project: self.project@,
            article: self.article@,
            granularity: self.granularity,
            access: self.access,
            agent: self.agent,
            entries: self.entries@,
        }
    }
}

/// The sum of the views of a list of counts.
pub open spec fn views_sum(entries: Seq<PageviewsParams>) -> nat
    decreases entries.len(),
{
    if entries.len() == 0 {
        0
    } else {
        views_sum(entries.drop_last()) + entries.last().views as nat
    }
}

/// The sum grows with the list.
pub proof fn lemma_views_sum_prefix(entries: Seq<PageviewsParams>, n: int)
    requires
        0 <= n <= entries.len(),
    ensures
        views_sum(entries.take(n)) <= views_sum(entries),
    decreases entries.len(),
{
    if n == entries.len() {
        assert(entries.take(n) =~= entries);
    } else {
        lemma_views_sum_prefix(entries.drop_last(), n);
        assert(entries.drop_last().take(n) =~= entries.take(n));
    }
}

impl PageviewsResult {
    /// The views over the whole span, `None` where the sum does not fit.
    pub fn checked_total_views(&self) -> (r: Option<u64>)
        ensures
            match r {
                Some(total) => total == views_sum(self@.entries),
                None => views_sum(self@.entries) > u64::MAX,
            },
    {
        let ghost all = self.entries@;
        let mut total: u64 = 0;
        let mut i: usize = 0;
        assert(all.take(0) =~= Seq::<PageviewsParams>::empty());
        while i < self.entries.len()
            invariant
                i <= self.entries.len(),
                all == self.entries@,
                total == views_sum(all.take(i as int)),
            decreases self.entries.len() - i,
        {
            proof {
                assert(all.take(i + 1).drop_last() =~= all.take(i as int));
                assert(all.take(i + 1).last() == all[i as int]);
                lemma_views_sum_prefix(all, i + 1);
            }
            let views = self.entries[i].views;
            if views > u64::MAX - total {
                return None;
            }
            total = total + views;
            i = i + 1;
        }
        assert(all.take(i as int) =~= all);
        Some(total)
    }

    /// The views over the whole span.
    pub fn total_views(&self) -> (r: u64)
        requires
            views_sum(self@.entries) <= u64::MAX,
        ensures
            r == views_sum(self@.entries),
    {
        match self.checked_total_views() {
            Some(total) => total,
            None => 0,
        }
    }

    /// The number of counts.
    pub fn len(&self) -> (r: usize)
        ensures
            r == self@.entries.len(),
    {
        self.entries.len()
    }
}

/// What to do with a response of the service.
#[derive(Debug, PartialEq, Eq, Structural, Clone, Copy)]
pub enum PageviewsStep {
    /// Wait for so many seconds, then send the same request again.
    Retry { seconds: u64 },
    /// Read the body of the response.
    Read,
}

/// The seconds to wait: what the header `Retry-After` spells, else five.
pub open spec fn retry_seconds(retry_after: Option<Seq<char>>) -> u64 {
    match retry_after {
        Some(text) => match parse_u64_spec(text) {
            Some(n) => n,
            None => 5,
        },
        None => 5,
    }
}

/// The step after a response with the given status.
pub open spec fn step_after(status: u16, retry_after: Option<Seq<char>>) -> PageviewsStep {
    if status == 429 {
        PageviewsStep::Retry { seconds: retry_seconds(retry_after) }
    } else {
        PageviewsStep::Read
    }
}

/// The first day of the month after `month`, or, where the calendar has no
/// such month, of the year after `year`.
pub open spec fn next_month_start(year: int, month: int) -> Option<Date> {
    if is_valid_date(year, month + 1, 1) {
        Some(Date { year: year as i32, month: (month + 1) as u32, day: 1 })
    } else if is_valid_date(year + 1, 1, 1) {
        Some(Date { year: (year + 1) as i32, month: 1, day: 1 })
    } else {
        None
    }
}

/// The last day of a month: the day before [`next_month_start`].
pub open spec fn last_day_of_month(year: int, month: int) -> Option<Date> {
    match next_month_start(year, month) {
        Some(d) => crate::dates::day_before(d),
        None => None,
    }
}

/// The address of the views of a page.
pub open spec fn per_article_address(
    q: Pageviews,
    page: Seq<char>,
    project: Seq<char>,
    start: Date,
    end: Date,
) -> Seq<char> {
    "https://wikimedia.org/api/rest_v1/metrics/pageviews/per-article/"@ + project + "/"@
        + access_word(q.access) + "/"@ + agent_word(q.agent) + "/"@ + replaced(page, ' ', '_')
        + "/"@ + granularity_word(q.granularity) + "/"@ + compact_text(start) + "/"@
        + compact_text(end)
}

/// The message of a failure that the service reports: its `detail` where
/// that is a string.
pub open spec fn failure_message(json: JsonView) -> Seq<char> {
    match json.at("detail"@).as_str() {
        Some(detail) => detail,
        None => "Pageviews request failed"@,
    }
}

/// A client for the views of single pages.
#[derive(Debug, PartialEq, Eq, Structural, Clone, Copy)]
pub struct Pageviews {
    pub granularity: PageviewsGranularity,
    pub access: PageviewsAccess,
    pub agent: PageviewsAgent,
}

impl Pageviews {
    /// The first day of a month.
    pub fn month_start(year: i32, month: u32) -> (r: Option<Date>)
        ensures
            r == (if is_valid_date(year as int, month as int, 1) {
                Some(Date { year, month, day: 1 })
            } else {
                None::<Date>
            }),
    {
        Date::from_ymd_opt(year, month, 1)
    }

    /// The last day of a month. A month beyond December counts as December.
    pub fn month_end(year: i32, month: u32) -> (r: Option<Date>)
        ensures
            r == last_day_of_month(year as int, month as int),
    {
        let next = if month < 0xFFFF_FFFF {
            Date::from_ymd_opt(year, month + 1, 1)
        } else {
            None
        };
        let first = match next {
            Some(d) => Some(d),
            None => if year < 0x7FFF_FFFF {
                Date::from_ymd_opt(year + 1, 1, 1)
            } else {
                None
            },
        };
        match first {
            Some(d) => d.pred_opt(),
            None => None,
        }
    }

    /// A client for views of the given granularity, access and agent.
    pub fn new(granularity: PageviewsGranularity, access: PageviewsAccess, agent: PageviewsAgent) -> (r:
        Self)
        ensures
            r == (Pageviews { granularity, access, agent }),
    {
        Pageviews { granularity, access, agent }
    }

    /// The address of the views of `page` on `project` from `start` to `end`.
    /// Spaces in the title become underscores.
    pub fn per_article_url(&self, page: &str, project: &str, start: &Date, end: &Date) -> (r: String)
        ensures
            r@ == per_article_address(*self, page@, project@, *start, *end),
    {
        let page = replace_char(page, ' ', '_');
        let mut url = "https://wikimedia.org/api/rest_v1/metrics/pageviews/per-article/".to_owned();
        url.append(project);
        url.append("/");
        url.append(self.access.as_str());
        url.append("/");
        url.append(self.agent.as_str());
        url.append("/");
        url.append(page.as_str());
        url.append("/");
        url.append(self.granularity.as_str());
        url.append("/");
        url.append(start.to_compact().as_str());
        url.append("/");
        url.append(end.to_compact().as_str());
        url
    }

    /// What to do with a response: the status 429 asks to wait, for as many
    /// seconds as the header `Retry-After` says or for five, and to send the
    /// request again, however often that happens; any other status means
    /// that the body is to be read.
    pub fn next_step(status: u16, retry_after: Option<&str>) -> (r: PageviewsStep)
        ensures
            r == step_after(
                status,
                match retry_after {
                    Some(t) => Some(t@),
                    None => None,
                },
            ),
    {
        if status == 429 {
            let seconds = match retry_after {
                Some(text) => match parse_u64(text) {
                    Some(n) => n,
                    None => 5,
                },
                None => 5,
            };
            PageviewsStep::Retry { seconds }
        } else {
            PageviewsStep::Read
        }
    }

    /// Reads the body of an answer for `page` on `project`. A body with a
    /// member `status` reports a failure. Otherwise the counts of the entries
    /// of `items` are the result; an entry that gives no count is passed over.
    pub fn result_from_json(&self, json: &JsonValue, page: &str, project: &str) -> (r: Result<
        PageviewsResult,
        ToolsError,
    >)
        ensures
            if json@.get("status"@) is Some {
                r matches Err(ToolsError::Tool(m)) && m@ == failure_message(json@)
            } else {
                match json@.get("items"@) {
                    None => r matches Err(ToolsError::Json(m)) && m@
                        == "No 'items' in Pageviews JSON"@,
                    Some(items) => match items.as_array() {
                        None => r matches Err(ToolsError::Json(m)) && m@
                            == "'items' is not an array in Pageviews JSON"@,
                        Some(entries) => r matches Ok(result) && result@ == (PageviewsResultView {
                            project: project@,
                            article: replaced(page@, ' ', '_'),
                            granularity: self.granularity,
                            access: self.access,
                            agent: self.agent,
                            entries: decoded_rows(entries, |e: JsonView| params_of_entry(e)),
                        }),
                    },
                }
            },
    {
        if json.get("status").is_some() {
            let message = match json.str_at("detail") {
                Some(detail) => detail.to_owned(),
                None => "Pageviews request failed".to_owned(),
            };
            return Err(ToolsError::Tool(message));
        }
        let items = match json.get("items") {
            Some(items) => items,
            None => { return Err(ToolsError::Json("No 'items' in Pageviews JSON".to_owned())); },
        };
        let entries = match items.as_array() {
            Some(entries) => entries,
            None => {
                return Err(
                    ToolsError::Json("'items' is not an array in Pageviews JSON".to_owned()),
                );
            },
        };
        let ghost all = items_view(entries@);
        let ghost decode = |e: JsonView| params_of_entry(e);
        let mut counts: Vec<PageviewsParams> = Vec::new();
        let mut i: usize = 0;
        assert(all.take(0) =~= Seq::<JsonView>::empty());
        while i < entries.len()
            invariant
                i <= entries.len(),
                all == items_view(entries@),
                decode == |e: JsonView| params_of_entry(e),
                counts@ == decoded_rows(all.take(i as int), decode),
            decreases entries.len() - i,
        {
            proof {
                lemma_decoded_rows_step(all, decode, i as int);
            }
            match PageviewsParams::from_json(&entries[i]) {
                Some(count) => {
                    counts.push(count);
                },
                None => {},
            }
            i = i + 1;
        }
        assert(all.take(i as int) =~= all);
        Ok(
            PageviewsResult {
                project: project.to_owned(),
                article: replace_char(page, ' ', '_'),
                granularity: self.granularity,
                access: self.access,
                agent: self.agent,
                entries: counts,
            },
        )
    }

    /// The results among the outcomes of several requests, in order; failed
    /// requests are left out.
    pub fn collect_results<E>(outcomes: Vec<Result<PageviewsResult, E>>) -> (r: Vec<PageviewsResult>)
        ensures
            r@ == decoded_rows(
                outcomes@,
                |o: Result<PageviewsResult, E>|
                    match o {
                        Ok(result) => Some(result),
                        Err(_) => None,
                    },
            ),
    {
        let ghost all = outcomes@;
        let ghost decode = |o: Result<PageviewsResult, E>|
            match o {
                Ok(result) => Some(result),
                Err(_) => None,
            };
        let mut rest = outcomes;
        let mut reversed: Vec<Result<PageviewsResult, E>> = Vec::new();
        while rest.len() > 0
            invariant
                rest@.len() + reversed@.len() == all.len(),
                forall|k: int| 0 <= k < rest@.len() ==> #[trigger] rest@[k] == all[k],
                forall|k: int|
                    0 <= k < reversed@.len() ==> #[trigger] reversed@[k] == all[all.len() - 1 - k],
            decreases rest@.len(),
        {
            match rest.pop() {
                Some(o) => reversed.push(o),
                None => {},
            }
        }
        let mut results: Vec<PageviewsResult> = Vec::new();
        let ghost mut i: int = 0;
        assert(all.take(0) =~= Seq::<Result<PageviewsResult, E>>::empty());
        while reversed.len() > 0
            invariant
                0 <= i <= all.len(),
                reversed@.len() + i == all.len(),
                decode == |o: Result<PageviewsResult, E>|
                    match o {
                        Ok(result) => Some(result),
                        Err(_) => None,
                    },
                forall|k: int|
                    0 <= k < reversed@.len() ==> #[trigger] reversed@[k] == all[all.len() - 1 - k],
                results@ == decoded_rows(all.take(i), decode),
            decreases reversed@.len(),
        {
            proof {
                lemma_decoded_rows_step(all, decode, i);
            }
            let ghost top = reversed@[reversed@.len() - 1];
            assert(top == all[i]);
            match reversed.pop() {
                Some(Ok(result)) => {
                    results.push(result);
                },
                _ => {},
            }
            proof {
                i = i + 1;
            }
        }
        assert(all.take(i) =~= all);
        results
    }
}

} // verus!
