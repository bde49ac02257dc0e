//! Calendar dates, instants, and what the machine's clock and time zone answer.

use vstd::prelude::*;
use chrono::{Datelike, TimeZone, Timelike};
use crate::phrase::ClockTime;

verus! {

/// A date of the proleptic Gregorian calendar, as written: year, month, day.
#[derive(Clone, Copy, Debug, PartialEq, Eq, Structural)]
pub struct CivilDate {
    pub year: i32,
    pub month: u32,
    pub day: u32,
}

/// A point in time: whole seconds since 1970-01-01 00:00:00 UTC, and the
/// nanoseconds past that second.
#[derive(Clone, Copy, Debug, PartialEq, Eq, Structural)]
pub struct Instant {
    pub secs: i64,
    pub nanos: u32,
}

/// One reading of the clock: the instant, and the date it falls on in local time.
#[derive(Clone, Copy, Debug, PartialEq, Eq, Structural)]
pub struct Now {
    pub date: CivilDate,
    pub at: Instant,
}

/// The first and the last year that a date can have.
pub const MIN_YEAR: i32 = -262143;

pub const MAX_YEAR: i32 = 262142;

pub open spec fn is_leap_year(year: int) -> bool {
    year % 4 == 0 && (year % 100 != 0 || year % 400 == 0)
}

/// The number of days of a month; zero for a month that is none.
pub open spec fn days_in_month(year: int, month: int) -> int {
    if month == 2 {
        if is_leap_year(year) {
            29
        } else {
            28
        }
    } else if month == 4 || month == 6 || month == 9 || month == 11 {
        30
    } else if 1 <= month <= 12 {
        31
    } else {
        0
    }
}

impl CivilDate {
    /// Whether the calendar has this date.
    pub open spec fn is_valid(self) -> bool {
        &&& MIN_YEAR <= self.year <= MAX_YEAR
        &&& 1 <= self.month <= 12
        &&& 1 <= self.day <= days_in_month(self.year as int, self.month as int)
    }

    /// The date that follows: none after a date that does not exist, and none after the last one.
    pub open spec fn successor(self) -> Option<CivilDate> {
        if !self.is_valid() {
            None
        } else if self.day < days_in_month(self.year as int, self.month as int) {
            Some(CivilDate { year: self.year, month: self.month, day: (self.day + 1) as u32 })
        } else if self.month < 12 {
            Some(CivilDate { year: self.year, month: (self.month + 1) as u32, day: 1 })
        } else if self.year < MAX_YEAR {
            Some(CivilDate { year: (self.year + 1) as i32, month: 1, day: 1 })
        } else {
            None
        }
    }
}

impl Instant {
    /// Whether this instant comes strictly before `other`.
    pub open spec fn precedes(self, other: Instant) -> bool {
        self.secs < other.secs || (self.secs == other.secs && self.nanos < other.nanos)
    }

    /// Nanoseconds since the epoch.
    pub open spec fn total_nanos(self) -> int {
        self.secs * 1_000_000_000 + self.nanos
    }

    pub fn is_before(&self, other: &Instant) -> (r: bool)
        ensures
            r == self.precedes(*other),
    {
        self.secs < other.secs || (self.secs == other.secs && self.nanos < other.nanos)
    }
}

/// `chrono::Local::now`, read once: the instant as `timestamp` and
/// `timestamp_subsec_nanos` give it, the local date as `year`, `month` and `day`
/// give it. Nothing is claimed of what the clock says.
#[verifier::external_body]
pub(crate) fn local_now() -> Now {
    let t = chrono::Local::now();
    Now {
        date: CivilDate { year: t.year(), month: t.month(), day: t.day() },
        at: Instant { secs: t.timestamp(), nanos: t.timestamp_subsec_nanos() },
    }
}

/// `chrono::NaiveDate::from_ymd_opt`: it gives a date exactly when the calendar
/// has that day and the year lies within the years that dates can have.
#[verifier::external_body]
pub(crate) fn date_exists(date: &CivilDate) -> (r: bool)
    ensures
        r == date.is_valid(),
{
    chrono::NaiveDate::from_ymd_opt(date.year, date.month, date.day).is_some()
}

/// `chrono::NaiveDate::succ_opt`: the next calendar date, none after the last
/// date there is. A date that does not exist has no next one.
#[verifier::external_body]
pub(crate) fn next_date(date: &CivilDate) -> (r: Option<CivilDate>)
    ensures
        r == date.successor(),
{
    match chrono::NaiveDate::from_ymd_opt(date.year, date.month, date.day) {
        Some(day) => match day.succ_opt() {
            Some(next) => Some(
                CivilDate { year: next.year(), month: next.month(), day: next.day() },
            ),
            None => None,
        },
        None => None,
    }
}

/// `chrono::TimeZone::from_local_datetime` on `chrono::Local`, then `single` and
/// `timestamp`: the instant at which the machine's time zone shows the given
/// date and time, at second zero, if it shows them exactly once. Which instant
/// that is rests with the zone; only a date that exists and a valid time have one.
#[verifier::external_body]
pub(crate) fn local_timestamp(date: &CivilDate, time: &ClockTime) -> (r: Option<i64>)
    ensures
        r is Some ==> date.is_valid() && time.is_valid(),
{
    let day = chrono::NaiveDate::from_ymd_opt(date.year, date.month, date.day)?;
    let wall = day.and_hms_opt(time.hour, time.minute, 0)?;
    match chrono::Local.from_local_datetime(&wall).single() {
        Some(t) => Some(t.timestamp()),
        None => None,
    }
}

/// The date and time of day that a time stamp writes, as plain numbers. A
/// second that is a leap second is told by a nanosecond of a thousand
/// million or more.
#[derive(Clone, Copy, Debug, PartialEq, Eq, Structural)]
pub struct Stamp {
    pub date: CivilDate,
    pub hour: u32,
    pub minute: u32,
    pub second: u32,
    pub nanosecond: u32,
}

/// What `chrono::NaiveDateTime::parse_from_str` reads from a text under a
/// format, as the fields of the date and time; none where it reports an error.
pub uninterp spec fn stamp_of(text: Seq<char>, format: Seq<char>) -> Option<Stamp>;

/// `chrono::NaiveDateTime::parse_from_str`: the date and time that it reads
/// from the text under the format, handed on field by field as `year`,
/// `month`, `day`, `hour`, `minute`, `second` and `nanosecond` give them.
/// What it reads depends on the two texts alone.
#[verifier::external_body]
pub(crate) fn read_stamp(text: &str, format: &str) -> (r: Option<Stamp>)
    ensures
        r == stamp_of(text@, format@),
{
    match chrono::NaiveDateTime::parse_from_str(text, format) {
        Ok(t) => Some(
            Stamp {
                date: CivilDate { year: t.year(), month: t.month(), day: t.day() },
                hour: t.hour(),
                minute: t.minute(),
                second: t.second(),
                nanosecond: t.nanosecond(),
            },
        ),
        Err(_) => None,
    }
}

} // verus!
