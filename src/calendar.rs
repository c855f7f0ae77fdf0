//! The proleptic Gregorian calendar, and the dates and years the domain reads.
use chrono::{DateTime, Datelike, NaiveDate};
use vstd::prelude::*;

use crate::newspaper::NewspaperError;

verus! {

/// A calendar year as the domain stores it.
pub type Year = u16;

/// The textual date format: day, month and four-digit year, separated by dashes.
pub const FORMAT: &'static str = "%d-%m-%Y";

pub open spec fn is_leap_year(y: int) -> bool {
    (y % 4 == 0 && y % 100 != 0) || y % 400 == 0
}

pub open spec fn days_in_month(y: int, m: int) -> int {
    if m == 2 {
        if is_leap_year(y) { 29 } else { 28 }
    } else if m == 4 || m == 6 || m == 9 || m == 11 {
        30
    } else {
        31
    }
}

/// Whether day `d` of month `m` exists in year `y`.
pub open spec fn is_calendar_date(y: int, m: int, d: int) -> bool {
    1 <= m <= 12 && 1 <= d <= days_in_month(y, m)
}

/// Days from 1970-01-01 to the given date (negative before it).
pub open spec fn days_from_civil(y: int, m: int, d: int) -> int {
    let yy = if m <= 2 { y - 1 } else { y };
    let era = yy / 400;
    let yoe = yy - era * 400;
    let mp = if m > 2 { m - 3 } else { m + 9 };
    let doy = (153 * mp + 2) / 5 + d - 1;
    let doe = yoe * 365 + yoe / 4 - yoe / 100 + doy;
    era * 146097 + doe - 719468
}

/// Day of the week, 0 for Monday up to 6 for Sunday (1970-01-01 was a Thursday).
pub open spec fn weekday_of(y: int, m: int, d: int) -> int {
    (days_from_civil(y, m, d) + 3) % 7
}

/// Milliseconds in a day.
pub const MILLIS_PER_DAY: u64 = 86_400_000;

/// Whether the instant `ms` milliseconds after 1970-01-01 00:00 UTC falls in year `y`.
pub open spec fn instant_in_year(ms: int, y: int) -> bool {
    days_from_civil(y, 1, 1) <= ms / (MILLIS_PER_DAY as int) < days_from_civil(y + 1, 1, 1)
}

/// What chrono reads from `text` under `format`: day, month and year.
pub uninterp spec fn parsed_date(text: Seq<char>, format: Seq<char>) -> Option<(u32, u32, i32)>;

/// The years chrono's dates span.
pub open spec fn in_chrono_range(y: int) -> bool {
    -262143 <= y <= 262142
}

/// Relies on chrono's `NaiveDate::parse_from_str`: a parsed date is a real calendar date of
/// the years chrono's dates span.
#[verifier::external_body]
fn parse_date(text: &str, format: &str) -> (r: Option<(u32, u32, i32)>)
    ensures
        r == parsed_date(text@, format@),
        r matches Some((d, m, y)) ==> is_calendar_date(y as int, m as int, d as int)
            && in_chrono_range(y as int),
{
    NaiveDate::parse_from_str(text, format).ok().map(|date| (date.day(), date.month(), date.year()))
}

/// Relies on chrono's `NaiveDate::from_ymd_opt` and `Weekday::num_days_from_monday`:
/// the proleptic Gregorian weekday, Monday being 0.
#[verifier::external_body]
fn weekday_from_monday(y: i32, m: u32, d: u32) -> (r: u32)
    requires
        is_calendar_date(y as int, m as int, d as int),
        in_chrono_range(y as int),
    ensures
        r as int == weekday_of(y as int, m as int, d as int),
{
    NaiveDate::from_ymd_opt(y, m, d).unwrap().weekday().num_days_from_monday()
}

/// The UTC year chrono gives for a Unix timestamp in milliseconds.
pub uninterp spec fn utc_year(ms: u64) -> Option<i32>;

/// Relies on chrono's `DateTime::from_timestamp_millis` and its `year`: the UTC year of a
/// Unix timestamp in milliseconds, absent only beyond the calendar's range (about 262 000
/// years from the common era).
#[verifier::external_body]
fn year_of_timestamp(ms: u64) -> (r: Option<i32>)
    ensures
        r == utc_year(ms),
        r matches Some(y) ==> instant_in_year(ms as int, y as int),
        ms <= 8_000_000_000_000_000 ==> r is Some,
{
    i64::try_from(ms).ok().and_then(DateTime::from_timestamp_millis).map(|t| t.year())
}

/// The host clock's reading: milliseconds since 1970-01-01 00:00 UTC.
#[derive(Debug, Clone, Copy, PartialEq, Eq)]
pub struct Clock {
    pub timestamp: u64,
}

/// `y` brought into the range of `Year`.
pub open spec fn clamp_year(y: int) -> int {
    if y < 0 {
        0
    } else if y > Year::MAX as int {
        Year::MAX as int
    } else {
        y
    }
}

impl Clock {
    /// The year of this reading, brought into the range of `Year`; a reading past the
    /// calendar's range counts as `Year::MAX`.
    pub open spec fn spec_year(self) -> int {
        match utc_year(self.timestamp) {
            Some(y) => clamp_year(y as int),
            None => Year::MAX as int,
        }
    }

    /// The current calendar year (UTC) of this clock reading.
    pub fn year(&self) -> (r: Year)
        ensures
            r as int == self.spec_year(),
            self.timestamp <= 8_000_000_000_000_000 ==> exists|y: int|
                instant_in_year(self.timestamp as int, y) && r as int == clamp_year(y),
    {
        match year_of_timestamp(self.timestamp) {
            Some(y) => {
                let r: Year = if y < 0 {
                    0
                } else if y > 65535 {
                    Year::MAX
                } else {
                    y as u16
                };
                assert(instant_in_year(self.timestamp as int, y as int) && r as int == clamp_year(
                    y as int,
                ));
                r
            },
            None => Year::MAX,
        }
    }
}

/// A calendar date of the years chrono's dates span.
#[derive(Debug, Clone, Copy, PartialEq, Eq)]
pub struct Date {
    day: u32,
    month: u32,
    year: i32,
}

impl View for Date {
    /// Year, month and day.
    type V = (int, int, int);

    closed spec fn view(&self) -> (int, int, int) {
        (self.year as int, self.month as int, self.day as int)
    }
}

/// Whether `v` is a real calendar date of the years chrono's dates span.
pub open spec fn is_date(v: (int, int, int)) -> bool {
    in_chrono_range(v.0) && is_calendar_date(v.0, v.1, v.2)
}

pub fn is_leap(y: i32) -> (r: bool)
    ensures
        r == is_leap_year(y as int),
{
    (y % 4 == 0 && y % 100 != 0) || y % 400 == 0
}

pub fn month_length(y: i32, m: u32) -> (r: u32)
    ensures
        r as int == days_in_month(y as int, m as int),
{
    if m == 2 {
        if is_leap(y) {
            29
        } else {
            28
        }
    } else if m == 4 || m == 6 || m == 9 || m == 11 {
        30
    } else {
        31
    }
}

impl Date {
    #[verifier::type_invariant]
    spec fn inv(&self) -> bool {
        is_date(self@)
    }

    /// The date `day`-`month`-`year`, if it exists.
    pub fn new(day: u32, month: u32, year: Year) -> (r: Option<Date>)
        ensures
            r is Some <==> is_calendar_date(year as int, month as int, day as int),
            r matches Some(date) ==> date@ == (year as int, month as int, day as int),
    {
        if 1 <= month && month <= 12 && 1 <= day && day <= month_length(year as i32, month) {
            Some(Date { day, month, year: year as i32 })
        } else {
            None
        }
    }

    /// Reads a date written day-month-year with dashes, as `FORMAT` gives it.
    pub fn try_new(text: &str) -> (r: Result<Date, NewspaperError>)
        ensures
            r is Ok <==> parsed_date(text@, FORMAT@) is Some,
            r matches Ok(date) ==> (parsed_date(text@, FORMAT@) matches Some((d, m, y))
                && date@ == (y as int, m as int, d as int)),
            r matches Err(e) ==> e == NewspaperError::DateParsing,
    {
        match parse_date(text, FORMAT) {
            Some((d, m, y)) => Ok(Date { day: d, month: m, year: y }),
            None => Err(NewspaperError::DateParsing),
        }
    }

    pub fn year(&self) -> (r: i32)
        ensures
            r as int == self@.0,
    {
        self.year
    }

    pub fn month(&self) -> (r: u32)
        ensures
            r as int == self@.1,
    {
        self.month
    }

    pub fn day(&self) -> (r: u32)
        ensures
            r as int == self@.2,
    {
        self.day
    }

    /// The day of the week, 0 for Monday up to 6 for Sunday.
    pub fn weekday_index(&self) -> (r: usize)
        ensures
            r as int == weekday_of(self@.0, self@.1, self@.2),
            r < 7,
    {
        proof {
            use_type_invariant(self);
        }
        weekday_from_monday(self.year, self.month, self.day) as usize
    }
}

} // verus!
