//! How urgent a usage figure is, judged against how much of its period has gone by.

use vstd::prelude::*;
use crate::clock::{local_now, Now};
use crate::duration::{seconds_until, toward_zero, TimeSpan};
use crate::reset::{lemma_means_nothing, means_nothing, means_nothing_on, parse_reset_time_at};

verus! {

/// How urgent a usage figure is, most urgent first.
#[derive(Clone, Copy, Debug, PartialEq, Eq, Structural)]
pub enum Severity {
    Critical,
    High,
    Elevated,
    Nominal,
}

/// The share of the period assumed to have gone by when the reset time is not known.
pub const MIDPOINT_PERCENT: i32 = 50;

/// The usage from which a figure is critical whatever the pace.
pub const CEILING_PERCENT: i32 = 90;

/// The share of a period that has gone by, in percent rounded toward zero,
/// when `remaining_hours` of its `period_hours` are left. A period that is
/// not positive counts as half gone.
pub open spec fn elapsed_percent(remaining_hours: int, period_hours: int) -> int {
    if period_hours > 0 {
        toward_zero(100 * (period_hours - remaining_hours), period_hours)
    } else {
        MIDPOINT_PERCENT as int
    }
}

/// The share of the period that has gone by, given the span left until the
/// reset; half of it when that span is not known.
pub open spec fn pace_percent(remaining: Option<TimeSpan>, period_hours: int) -> int {
    match remaining {
        Some(span) => elapsed_percent(span.whole_hours(), period_hours),
        None => MIDPOINT_PERCENT as int,
    }
}

/// The severity of a usage figure against the share of the period gone by.
/// The ceiling is tried first; then how far usage runs ahead of time.
pub open spec fn severity_of(usage_percent: int, elapsed: int) -> Severity {
    let pace_delta = usage_percent - elapsed;
    if usage_percent >= CEILING_PERCENT {
        Severity::Critical
    } else if pace_delta >= 20 {
        Severity::Critical
    } else if pace_delta >= 10 {
        Severity::High
    } else if pace_delta > 0 {
        Severity::Elevated
    } else {
        Severity::Nominal
    }
}

/// The mark shown for a severity: a red, orange, yellow or green disc.
pub open spec fn glyph_of(severity: Severity) -> Seq<char> {
    match severity {
        Severity::Critical => "\u{1F534}"@,
        Severity::High => "\u{1F7E0}"@,
        Severity::Elevated => "\u{1F7E1}"@,
        Severity::Nominal => "\u{1F7E2}"@,
    }
}

impl Severity {
    pub fn glyph(&self) -> (r: &'static str)
        ensures
            r@ == glyph_of(*self),
    {
        match self {
            Severity::Critical => "\u{1F534}",
            Severity::High => "\u{1F7E0}",
            Severity::Elevated => "\u{1F7E1}",
            Severity::Nominal => "\u{1F7E2}",
        }
    }
}

/// Classifies a usage figure, given the span left until its period resets.
pub fn classify(usage_percent: i32, remaining: Option<TimeSpan>, period_hours: i32) -> (r: Severity)
    ensures
        r == severity_of(usage_percent as int, pace_percent(remaining, period_hours as int)),
        usage_percent >= CEILING_PERCENT ==> r == Severity::Critical,
{
    if usage_percent >= CEILING_PERCENT {
        return Severity::Critical;
    }
    let elapsed: i128 = match remaining {
        Some(span) => {
            if period_hours > 0 {
                let hours = span.num_hours();
                100 * (period_hours as i128 - hours) / (period_hours as i128)
            } else {
                MIDPOINT_PERCENT as i128
            }
        },
        None => MIDPOINT_PERCENT as i128,
    };
    let pace_delta: i128 = usage_percent as i128 - elapsed;
    if pace_delta >= 20 {
        Severity::Critical
    } else if pace_delta >= 10 {
        Severity::High
    } else if pace_delta > 0 {
        Severity::Elevated
    } else {
        Severity::Nominal
    }
}

/// Classifies a usage figure against its reset phrase, seen from the reading `now`.
///
/// With no phrase, or one that means nothing on the day of the reading (the
/// grammar does not know it, or the calendar does not have its date), the
/// period counts as half gone. Otherwise the result follows from the instant
/// that the machine's time zone gives for the phrase: it is `classify` of
/// the span until then, and the midpoint where the zone gives none.
pub fn status_at(usage_percent: i32, resets: Option<&str>, period_hours: i32, now: &Now) -> (r:
    Severity)
    ensures
        usage_percent >= CEILING_PERCENT ==> r == Severity::Critical,
        (resets matches Some(text) ==> means_nothing_on(text@, now.date)) ==> r == severity_of(
            usage_percent as int,
            MIDPOINT_PERCENT as int,
        ),
        r == severity_of(usage_percent as int, MIDPOINT_PERCENT as int) || exists|secs: i64|
            r == severity_of(
                usage_percent as int,
                elapsed_percent(
                    toward_zero(#[trigger] seconds_until(secs, now.at), 3600),
                    period_hours as int,
                ),
            ),
{
    let remaining = match resets {
        Some(text) => match parse_reset_time_at(text, now) {
            Some(point) => Some(TimeSpan::until(&point, now)),
            None => None,
        },
        None => None,
    };
    classify(usage_percent, remaining, period_hours)
}

/// The mark for a usage figure against its reset phrase, seen from the machine's clock.
///
/// What the clock reads is not known beforehand. Whatever it reads, usage at
/// or above the ceiling gives the red disc; and a figure with no phrase, or
/// with one that means nothing on any day (the grammar does not know it, or
/// its date is in no year), is judged as if half the period had gone by,
/// whatever the length of the period.
pub fn get_status_indicator_paced(usage_percent: i32, resets: Option<&str>, period_hours: i32) -> (r:
    &'static str)
    ensures
        usage_percent >= CEILING_PERCENT ==> r@ == glyph_of(Severity::Critical),
        (resets matches Some(text) ==> means_nothing(text@)) ==> r@ == glyph_of(
            severity_of(usage_percent as int, MIDPOINT_PERCENT as int),
        ),
        exists|severity: Severity| r@ == glyph_of(severity),
{
    let now = local_now();
    proof {
        match resets {
            Some(text) => {
                if means_nothing(text@) {
                    lemma_means_nothing(text@, now.date);
                }
            },
            None => {},
        }
    }
    let severity = status_at(usage_percent, resets, period_hours, &now);
    severity.glyph()
}

/// At or above the ceiling a figure is critical, whatever share of the period has gone by.
pub proof fn lemma_ceiling_dominates(usage_percent: int, elapsed: int)
    requires
        usage_percent >= CEILING_PERCENT,
    ensures
        severity_of(usage_percent, elapsed) == Severity::Critical,
{
}

/// A figure that does not run ahead of the share of the period gone by, and
/// lies below the ceiling, is nominal.
pub proof fn lemma_under_pace_is_nominal(usage_percent: int, elapsed: int)
    requires
        usage_percent < CEILING_PERCENT,
        usage_percent <= elapsed,
    ensures
        severity_of(usage_percent, elapsed) == Severity::Nominal,
{
}

} // verus!
