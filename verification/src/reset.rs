//! From a reset phrase to the point in time it means, seen from one reading of the clock.

use vstd::prelude::*;
use crate::clock::{
    date_exists, days_in_month, local_now, local_timestamp, next_date, CivilDate, Instant, Now,
    MAX_YEAR, MIN_YEAR,
};
use crate::phrase::{parse_phrase, phrase_of, ClockTime, MonthDay};

verus! {

/// The point in time that a reset phrase means: the local date and clock time,
/// and the instant at which the machine's time zone shows them, in whole
/// seconds since the epoch.
#[derive(Clone, Copy, Debug, PartialEq, Eq, Structural)]
pub struct ResetPoint {
    pub date: CivilDate,
    pub time: ClockTime,
    pub secs: i64,
}

impl ResetPoint {
    pub open spec fn instant(self) -> Instant {
        Instant { secs: self.secs, nanos: 0 }
    }

    /// Whether the point lies strictly before the reading of the clock.
    pub fn has_passed(&self, now: &Now) -> (r: bool)
        ensures
            r == self.instant().precedes(now.at),
    {
        let at = Instant { secs: self.secs, nanos: 0 };
        at.is_before(&now.at)
    }
}

/// Whether a month and day come earlier in the year than the given date.
pub open spec fn earlier_in_year(md: MonthDay, today: CivilDate) -> bool {
    md.month < today.month || (md.month == today.month && md.day < today.day)
}

/// The year that a phrase without a year means: next year when its month and
/// day have already gone by this year, else this year.
pub open spec fn reset_year(md: MonthDay, today: CivilDate) -> int {
    if earlier_in_year(md, today) {
        today.year + 1
    } else {
        today.year as int
    }
}

/// The date that a month and day mean, seen from `today`; none if the calendar has no such date.
pub open spec fn target_date_of(md: MonthDay, today: CivilDate) -> Option<CivilDate> {
    let year = reset_year(md, today);
    let date = CivilDate { year: year as i32, month: md.month, day: md.day };
    if MIN_YEAR <= year <= MAX_YEAR && date.is_valid() {
        Some(date)
    } else {
        None
    }
}

/// The most days that a month can have, in a leap year or another; zero for
/// a month that is none.
pub open spec fn longest_month(month: int) -> int {
    if month == 2 {
        29
    } else {
        days_in_month(0, month)
    }
}

/// Whether a month and day are a date in no year at all, such as the 30th of
/// February or a day zero.
pub open spec fn in_no_year(md: MonthDay) -> bool {
    md.day < 1 || md.day > longest_month(md.month as int)
}

/// Whether a text means no point in time when it is seen from the day
/// `today`, whatever the zone answers: the grammar does not know it, or it
/// names a date that the calendar does not have.
pub open spec fn means_nothing_on(text: Seq<char>, today: CivilDate) -> bool {
    match phrase_of(text) {
        Some(phrase) => match phrase.date {
            Some(md) => target_date_of(md, today) is None,
            None => false,
        },
        None => true,
    }
}

/// Whether a text means no point in time from whatever day it is seen: the
/// grammar does not know it, or it names a date that is in no year.
pub open spec fn means_nothing(text: Seq<char>) -> bool {
    match phrase_of(text) {
        Some(phrase) => match phrase.date {
            Some(md) => in_no_year(md),
            None => false,
        },
        None => true,
    }
}

/// The choice for a phrase that names no date: today at that time, unless that
/// instant lies before the reading of the clock; then tomorrow at that time.
pub open spec fn bare_reset(
    time: ClockTime,
    now: Now,
    today_at: i64,
    tomorrow: Option<ResetPoint>,
) -> Option<ResetPoint> {
    let today = ResetPoint { date: now.date, time, secs: today_at };
    if today.instant().precedes(now.at) {
        tomorrow
    } else {
        Some(today)
    }
}

/// The date that a month and day mean, seen from `today`.
pub fn target_date(md: &MonthDay, today: &CivilDate) -> (r: Option<CivilDate>)
    ensures
        r == target_date_of(*md, *today),
{
    let next_year = md.month < today.month || (md.month == today.month && md.day < today.day);
    if next_year && today.year == i32::MAX {
        return None;
    }
    let year: i32 = if next_year { today.year + 1 } else { today.year };
    let date = CivilDate { year, month: md.month, day: md.day };
    if date_exists(&date) {
        Some(date)
    } else {
        None
    }
}

/// Chooses between today and tomorrow for a phrase that names no date.
/// `today_at` is the instant at which the zone shows the time on the date of
/// the reading; `tomorrow` is the point on the following date, if there is one.
pub fn pick_bare_reset(time: ClockTime, now: &Now, today_at: i64, tomorrow: Option<ResetPoint>) -> (r:
    Option<ResetPoint>)
    ensures
        r == bare_reset(time, *now, today_at, tomorrow),
{
    let today = ResetPoint { date: now.date, time, secs: today_at };
    if today.has_passed(now) {
        tomorrow
    } else {
        Some(today)
    }
}

/// The point for a date and a clock time, given what the zone answered for
/// them: the point at that instant, or none where the zone gave no instant.
pub open spec fn answered_point(date: CivilDate, time: ClockTime, answer: Option<i64>) -> Option<
    ResetPoint,
> {
    match answer {
        Some(secs) => Some(ResetPoint { date, time, secs }),
        None => None,
    }
}

/// Makes the point for a date and a clock time out of the zone's answer for them.
pub fn point_from_answer(date: CivilDate, time: ClockTime, answer: Option<i64>) -> (r: Option<
    ResetPoint,
>)
    ensures
        r == answered_point(date, time, answer),
{
    match answer {
        Some(secs) => Some(ResetPoint { date, time, secs }),
        None => None,
    }
}

/// The point at which the zone shows `time` on `date`, if it shows it exactly once.
fn point_on(date: CivilDate, time: ClockTime) -> (r: Option<ResetPoint>)
    ensures
        r matches Some(pt) ==> pt.date == date && pt.time == time && date.is_valid()
            && time.is_valid(),
{
    let answer = local_timestamp(&date, &time);
    point_from_answer(date, time, answer)
}

/// The point in time that a reset phrase means, seen from the reading `now`.
///
/// A phrase that the grammar does not know means none, and so does a date that
/// the calendar does not have. Otherwise the date and clock time of the result
/// are fixed by the phrase and the reading; the instant, and whether there is
/// one, is what the machine's time zone answers for that date and time.
pub fn parse_reset_time_at(resets: &str, now: &Now) -> (r: Option<ResetPoint>)
    ensures
        means_nothing_on(resets@, now.date) ==> r is None,
        phrase_of(resets@) is None ==> r is None,
        phrase_of(resets@) matches Some(p) ==> match p.date {
            Some(md) => {
                &&& target_date_of(md, now.date) is None ==> r is None
                &&& r matches Some(pt) ==> Some(pt.date) == target_date_of(md, now.date)
                    && pt.time == p.time
            },
            None => r matches Some(pt) ==> {
                &&& pt.time == p.time
                &&& (pt.date == now.date && !pt.instant().precedes(now.at)) || Some(pt.date)
                    == now.date.successor()
            },
        },
        r matches Some(pt) ==> pt.date.is_valid() && pt.time.is_valid(),
{
    match parse_phrase(resets) {
        None => None,
        Some(phrase) => match phrase.date {
            Some(md) => match target_date(&md, &now.date) {
                Some(date) => point_on(date, phrase.time),
                None => None,
            },
            None => match point_on(now.date, phrase.time) {
                None => None,
                Some(today) => {
                    let tomorrow = if today.has_passed(now) {
                        match next_date(&now.date) {
                            Some(date) => point_on(date, phrase.time),
                            None => None,
                        }
                    } else {
                        None
                    };
                    pick_bare_reset(phrase.time, now, today.secs, tomorrow)
                },
            },
        },
    }
}

/// The point in time that a reset phrase means, seen from the machine's clock.
///
/// What the clock reads is not known beforehand, so the contract holds what is
/// true of every reading: a phrase that the grammar does not know means none,
/// and so does a month and day that are a date in no year; a result carries
/// the clock time that the phrase writes, on a date that the calendar has.
pub fn parse_reset_time(resets: &str) -> (r: Option<ResetPoint>)
    ensures
        means_nothing(resets@) ==> r is None,
        phrase_of(resets@) matches Some(p) ==> (r matches Some(pt) ==> pt.time == p.time && (
        p.date matches Some(md) ==> pt.date.month == md.month && pt.date.day == md.day)),
        r matches Some(pt) ==> pt.date.is_valid() && pt.time.is_valid(),
{
    let now = local_now();
    proof {
        if means_nothing(resets@) {
            lemma_means_nothing(resets@, now.date);
        }
    }
    parse_reset_time_at(resets, &now)
}

/// A phrase that names no date never means a point before the reading, and
/// never one more than a day after it, as long as the zone keeps its days
/// twenty-four hours long: the time on the date of the reading then lies
/// less than a day from the reading, and the same time on the next date lies
/// exactly a day after that.
pub proof fn lemma_bare_reset_within_a_day(
    time: ClockTime,
    now: Now,
    today_at: i64,
    tomorrow: ResetPoint,
)
    requires
        -86400 < today_at - now.at.secs < 86400,
        tomorrow.secs == today_at + 86400,
    ensures
        bare_reset(time, now, today_at, Some(tomorrow)) matches Some(point) && {
            &&& !point.instant().precedes(now.at)
            &&& point.secs - now.at.secs <= 86400
            &&& point.secs == today_at || point.secs == tomorrow.secs
        },
{
}

/// Whatever the zone answers, the point chosen for a phrase that names no
/// date is either the one given for the next date, or it is today's and
/// does not lie before the reading.
pub proof fn lemma_bare_reset_today_not_past(
    time: ClockTime,
    now: Now,
    today_at: i64,
    tomorrow: Option<ResetPoint>,
)
    ensures
        bare_reset(time, now, today_at, tomorrow) == tomorrow || (bare_reset(
            time,
            now,
            today_at,
            tomorrow,
        ) matches Some(point) && point.date == now.date && point.secs == today_at
            && !point.instant().precedes(now.at)),
{
}

/// A month and day that are a date in no year mean no date, from whatever day they are seen.
pub proof fn lemma_in_no_year(md: MonthDay, today: CivilDate)
    requires
        in_no_year(md),
    ensures
        target_date_of(md, today) is None,
{
}

/// A text that means nothing from whatever day it is seen means nothing seen from any one day.
pub proof fn lemma_means_nothing(text: Seq<char>, today: CivilDate)
    requires
        means_nothing(text),
    ensures
        means_nothing_on(text, today),
{
    match phrase_of(text) {
        Some(phrase) => match phrase.date {
            Some(md) => {
                lemma_in_no_year(md, today);
            },
            None => {},
        },
        None => {},
    }
}

/// Where the zone gives an instant for the date that a month and day mean,
/// the point is there, on that date, in the year that the day of the
/// reading asks for, and at that instant.
pub proof fn lemma_dated_point(md: MonthDay, time: ClockTime, today: CivilDate, secs: i64)
    requires
        target_date_of(md, today) is Some,
    ensures
        answered_point(target_date_of(md, today)->0, time, Some(secs)) matches Some(point) && {
            &&& point.date.year == reset_year(md, today)
            &&& point.date.month == md.month
            &&& point.date.day == md.day
            &&& point.time == time
            &&& point.secs == secs
        },
{
}

/// A month and day that are still to come this year, or are today, mean
/// this year; a month and day that have gone by mean next year.
pub proof fn lemma_reset_year(md: MonthDay, today: CivilDate)
    ensures
        (today.month < md.month || (today.month == md.month && today.day <= md.day))
            ==> reset_year(md, today) == today.year,
        (today.month > md.month || (today.month == md.month && today.day > md.day))
            ==> reset_year(md, today) == today.year + 1,
        target_date_of(md, today) matches Some(date) ==> date.year == reset_year(md, today)
            && date.month == md.month && date.day == md.day,
{
}

} // verus!
