//! Trends: how often a keyword shows in recent titles, and the reports that
//! collect them.

use crate::article::ArticleId;
use std::collections::HashMap;
use vstd::prelude::*;

verus! {

/// The texts of a run of identifiers.
pub open spec fn id_texts(ids: Seq<ArticleId>) -> Seq<Seq<char>> {
    ids.map_values(|id: ArticleId| id@)
}

/// Copies a list of identifiers.
pub fn clone_ids(ids: &Vec<ArticleId>) -> (copy: Vec<ArticleId>)
    ensures
        id_texts(copy@) == id_texts(ids@),
{
    let mut copy: Vec<ArticleId> = Vec::new();
    for i in 0..ids.len()
        invariant
            copy.len() == i,
            forall|j: int| 0 <= j < i ==> copy[j]@ == ids[j]@,
    {
        copy.push(ids[i].clone());
    }
    copy
}

/// One keyword's showing in the window of articles that a report looked at.
#[derive(Debug)]
pub struct Trend {
    pub keyword: String,
    /// Ten points for each matching article.
    pub score: u64,
    /// How many matches the keyword had.
    pub volume: u32,
    /// The change against an earlier report. A report is computed on its
    /// own, with nothing to compare with, and records 0.
    pub velocity: i64,
    /// The matching articles, in the order in which they were scanned.
    pub related_articles: Vec<ArticleId>,
}

/// A `Trend` with its texts as sequences of characters.
pub struct TrendView {
    pub keyword: Seq<char>,
    pub score: u64,
    pub volume: u32,
    pub velocity: i64,
    pub related_articles: Seq<Seq<char>>,
}

impl View for Trend {
    type V = TrendView;

    open spec fn view(&self) -> TrendView {
        TrendView {
            keyword: self.keyword@,
            score: self.score,
            volume: self.volume,
            velocity: self.velocity,
            related_articles: id_texts(self.related_articles@),
        }
    }
}

impl Clone for Trend {
    fn clone(&self) -> (copy: Trend)
        ensures
            copy@ == self@,
    {
        Trend {
            keyword: self.keyword.clone(),
            score: self.score,
            volume: self.volume,
            velocity: self.velocity,
            related_articles: clone_ids(&self.related_articles),
        }
    }
}

/// The views of a run of trends.
pub open spec fn trend_views(trends: Seq<Trend>) -> Seq<TrendView> {
    trends.map_values(|t: Trend| t@)
}

/// The trends that were found at one moment.
#[derive(Debug)]
pub struct TrendReport {
    /// When the report was made, as its caller says: seconds since the Unix epoch.
    pub timestamp: i64,
    /// One entry for each keyword that matched; their order means nothing.
    pub trends: Vec<Trend>,
    /// Free for whoever stores or reads reports; computing one leaves it empty.
    pub metadata: HashMap<String, String>,
}

/// A `TrendReport` with its trends as views.
pub struct TrendReportView {
    pub timestamp: i64,
    pub trends: Seq<TrendView>,
    pub metadata: Map<String, String>,
}

impl View for TrendReport {
    type V = TrendReportView;

    open spec fn view(&self) -> TrendReportView {
        TrendReportView {
            timestamp: self.timestamp,
            trends: trend_views(self.trends@),
            metadata: self.metadata@,
        }
    }
}

impl Default for TrendReport {
    fn default() -> (report: TrendReport)
        ensures
            report@ == (TrendReportView {
                timestamp: 0,
                trends: Seq::empty(),
                metadata: Map::empty(),
            }),
    {
        let report = TrendReport { timestamp: 0, trends: Vec::new(), metadata: HashMap::new() };
        assert(report@.trends =~= Seq::empty());
        report
    }
}

impl Clone for TrendReport {
    fn clone(&self) -> (copy: TrendReport)
        ensures
            copy@ == self@,
    {
        let mut trends: Vec<Trend> = Vec::new();
        for i in 0..self.trends.len()
            invariant
                trends.len() == i,
                forall|j: int| 0 <= j < i ==> trends[j]@ == self.trends[j]@,
        {
            trends.push(self.trends[i].clone());
        }
        assert(trend_views(trends@) =~= trend_views(self.trends@));
        TrendReport { timestamp: self.timestamp, trends, metadata: self.metadata.clone() }
    }
}

/// The identifier of an event on the timeline.
#[derive(Debug, Hash)]
pub struct TimelineEventId(String);

impl View for TimelineEventId {
    type V = Seq<char>;

    closed spec fn view(&self) -> Seq<char> {
        self.0@
    }
}

impl TimelineEventId {
    /// The identifier as text.
    pub fn to_string(&self) -> (s: String)
        ensures
            s@ == self@,
    {
        self.0.clone()
    }
}

impl From<&str> for TimelineEventId {
    fn from(s: &str) -> (id: TimelineEventId)
        ensures
            id@ == s@,
    {
        TimelineEventId(s.to_owned())
    }
}

impl vstd::std_specs::convert::FromSpecImpl<&str> for TimelineEventId {
    open spec fn obeys_from_spec() -> bool {
        false
    }

    open spec fn from_spec(s: &str) -> TimelineEventId {
        arbitrary()
    }
}

impl Clone for TimelineEventId {
    fn clone(&self) -> (copy: TimelineEventId)
        ensures
            copy@ == self@,
    {
        TimelineEventId(self.0.clone())
    }
}

impl PartialEq for TimelineEventId {
    fn eq(&self, other: &TimelineEventId) -> (r: bool) {
        self.0 == other.0
    }
}

impl Eq for TimelineEventId {

}

impl vstd::std_specs::cmp::PartialEqSpecImpl for TimelineEventId {
    open spec fn obeys_eq_spec() -> bool {
        true
    }

    open spec fn eq_spec(&self, other: &TimelineEventId) -> bool {
        self@ == other@
    }
}

/// The first year that a date can have.
pub const MIN_YEAR: i32 = -262143;

/// The last year that a date can have.
pub const MAX_YEAR: i32 = 262142;

/// Whether `year` has a 29th of February: every fourth year, but of the
/// years that end a century only every fourth.
pub open spec fn is_leap_year(year: int) -> bool {
    year % 4 == 0 && (year % 100 != 0 || year % 400 == 0)
}

/// How many days the month `month` of the year `year` has.
pub open spec fn days_in_month(year: int, month: int) -> int {
    if month == 2 {
        if is_leap_year(year) {
            29
        } else {
            28
        }
    } else if month == 4 || month == 6 || month == 9 || month == 11 {
        30
    } else {
        31
    }
}

/// Whether the proleptic Gregorian calendar has the day `day` of the month
/// `month` of the year `year`, within the years that a date can have.
pub open spec fn is_calendar_date(year: i32, month: u32, day: u32) -> bool {
    &&& MIN_YEAR <= year <= MAX_YEAR
    &&& 1 <= month <= 12
    &&& 1 <= day <= days_in_month(year as int, month as int)
}

/// Asks `chrono` whether a day exists.
///
/// Trusted: the answer is that of `chrono::NaiveDate::from_ymd_opt`, which
/// returns a date for the days that the proleptic Gregorian calendar has
/// in the years from `MIN_YEAR` to `MAX_YEAR`, and `None` for the others.
#[verifier::external_body]
pub(crate) fn calendar_has(year: i32, month: u32, day: u32) -> (r: bool)
    ensures
        r == is_calendar_date(year, month, day),
{
    chrono::NaiveDate::from_ymd_opt(year, month, day).is_some()
}

/// A day of the calendar. There is no date but of a day that the calendar
/// has.
#[derive(Debug, Clone, Copy, PartialEq, Eq, Structural)]
pub struct CalendarDate {
    year: i32,
    month: u32,
    day: u32,
}

impl CalendarDate {
    #[verifier::type_invariant]
    spec fn on_the_calendar(self) -> bool {
        is_calendar_date(self.year, self.month, self.day)
    }

    /// The year of the date.
    pub closed spec fn spec_year(&self) -> i32 {
        self.year
    }

    /// The month of the date.
    pub closed spec fn spec_month(&self) -> u32 {
        self.month
    }

    /// The day of the month.
    pub closed spec fn spec_day(&self) -> u32 {
        self.day
    }

    /// Whether `self` is a later day than `other`.
    pub open spec fn is_after(self, other: CalendarDate) -> bool {
        ||| self.spec_year() > other.spec_year()
        ||| self.spec_year() == other.spec_year() && self.spec_month() > other.spec_month()
        ||| self.spec_year() == other.spec_year() && self.spec_month() == other.spec_month()
            && self.spec_day() > other.spec_day()
    }

    /// A number that grows with the date: a later day has a greater one.
    pub closed spec fn spec_rank(&self) -> i128 {
        (self.year * 0x1_0000_0000_0000_0000 + self.month * 0x1_0000_0000 + self.day) as i128
    }

    /// A number that grows with the date.
    pub fn rank(&self) -> (rank: i128)
        ensures
            rank == self.spec_rank(),
    {
        (self.year as i128) * 0x1_0000_0000_0000_0000 + (self.month as i128) * 0x1_0000_0000 + (
        self.day as i128)
    }

    /// The date with these parts, if the calendar has it.
    pub fn from_ymd_opt(year: i32, month: u32, day: u32) -> (date: Option<CalendarDate>)
        ensures
            date is Some == is_calendar_date(year, month, day),
            date matches Some(d) ==> d.spec_year() == year && d.spec_month() == month
                && d.spec_day() == day,
    {
        if calendar_has(year, month, day) {
            Some(CalendarDate { year, month, day })
        } else {
            None
        }
    }

    /// The year of the date.
    #[verifier::when_used_as_spec(spec_year)]
    pub fn year(&self) -> (year: i32)
        ensures
            year == self.spec_year(),
            is_calendar_date(self.spec_year(), self.spec_month(), self.spec_day()),
    {
        proof {
            use_type_invariant(self);
        }
        self.year
    }

    /// The month of the date.
    #[verifier::when_used_as_spec(spec_month)]
    pub fn month(&self) -> (month: u32)
        ensures
            month == self.spec_month(),
            1 <= month <= 12,
    {
        proof {
            use_type_invariant(self);
        }
        self.month
    }

    /// The day of the month.
    #[verifier::when_used_as_spec(spec_day)]
    pub fn day(&self) -> (day: u32)
        ensures
            day == self.spec_day(),
            1 <= day <= 31,
    {
        proof {
            use_type_invariant(self);
        }
        self.day
    }

    /// Whether `self` is a later day than `other`.
    pub fn later_than(&self, other: &CalendarDate) -> (r: bool)
        ensures
            r == self.is_after(*other),
    {
        self.year > other.year || (self.year == other.year && (self.month > other.month || (
        self.month == other.month && self.day > other.day)))
    }
}

/// The later of two days has the greater rank, and equal days have equal
/// ranks.
pub proof fn lemma_rank_follows_the_calendar(a: CalendarDate, b: CalendarDate)
    ensures
        a.is_after(b) <==> a.spec_rank() > b.spec_rank(),
        a == b <==> a.spec_rank() == b.spec_rank(),
{
}

/// Something that happened, placed on the timeline.
#[derive(Debug)]
pub struct TimelineEvent {
    pub id: TimelineEventId,
    pub title: String,
    pub date: CalendarDate,
    pub description: String,
    pub category: String,
    /// How much the event matters, as the bits of an IEEE 754 double.
    pub importance_bits: u64,
}

/// A `TimelineEvent` with its texts as sequences of characters.
pub struct TimelineEventView {
    pub id: Seq<char>,
    pub title: Seq<char>,
    pub date: CalendarDate,
    pub description: Seq<char>,
    pub category: Seq<char>,
    pub importance_bits: u64,
}

impl View for TimelineEvent {
    type V = TimelineEventView;

    open spec fn view(&self) -> TimelineEventView {
        TimelineEventView {
            id: self.id@,
            title: self.title@,
            date: self.date,
            description: self.description@,
            category: self.category@,
            importance_bits: self.importance_bits,
        }
    }
}

impl Clone for TimelineEvent {
    fn clone(&self) -> (copy: TimelineEvent)
        ensures
            copy@ == self@,
    {
        TimelineEvent {
            id: self.id.clone(),
            title: self.title.clone(),
            date: self.date,
            description: self.description.clone(),
            category: self.category.clone(),
            importance_bits: self.importance_bits,
        }
    }
}

} // verus!
