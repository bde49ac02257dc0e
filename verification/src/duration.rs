//! Spans of time in whole seconds, and the short text that says how long is left.

use vstd::prelude::*;
use vstd::string::*;
use crate::clock::{Instant, Now};
use crate::reset::ResetPoint;
use crate::text::{decimal_text, push_decimal};

verus! {

/// A signed span of time in whole seconds, wide enough to hold the span
/// between any two instants.
#[derive(Clone, Copy, Debug, PartialEq, Eq, Structural)]
pub struct TimeSpan {
    pub secs: i128,
}

/// Division that rounds toward zero, for a positive divisor.
pub open spec fn toward_zero(n: int, d: int) -> int {
    if n >= 0 {
        n / d
    } else {
        -((-n) / d)
    }
}

/// The whole seconds from `now` to the start of second `secs` of the epoch,
/// rounded toward zero: a part of a second is dropped, before and after alike.
pub open spec fn seconds_until(secs: i64, now: Instant) -> int {
    toward_zero(secs * 1_000_000_000 - now.total_nanos(), 1_000_000_000)
}

/// The text for a span: days and hours from a day on, hours from an hour on,
/// minutes from a minute on, and `soon` below a minute, for zero and for a
/// negative span too.
pub open spec fn duration_text(secs: int) -> Seq<char> {
    let total_hours = secs / 3600;
    let days = total_hours / 24;
    let hours = total_hours % 24;
    let minutes = secs / 60;
    if secs < 60 {
        "soon"@
    } else if days > 0 {
        decimal_text(days as nat) + "d "@ + decimal_text(hours as nat) + "h left"@
    } else if hours > 0 {
        decimal_text(hours as nat) + "h left"@
    } else {
        decimal_text(minutes as nat) + "m left"@
    }
}

impl TimeSpan {
    pub fn seconds(n: i64) -> (r: TimeSpan)
        ensures
            r.secs == n,
    {
        TimeSpan { secs: n as i128 }
    }

    pub fn minutes(n: i64) -> (r: TimeSpan)
        ensures
            r.secs == n * 60,
    {
        TimeSpan { secs: n as i128 * 60 }
    }

    pub fn hours(n: i64) -> (r: TimeSpan)
        ensures
            r.secs == n * 3600,
    {
        TimeSpan { secs: n as i128 * 3600 }
    }

    /// The whole hours of the span, rounded toward zero.
    pub open spec fn whole_hours(self) -> int {
        toward_zero(self.secs as int, 3600)
    }

    pub fn num_hours(&self) -> (r: i128)
        ensures
            r == self.whole_hours(),
    {
        self.secs / 3600
    }

    /// The span from the reading `now` to a reset point.
    pub fn until(point: &ResetPoint, now: &Now) -> (r: TimeSpan)
        ensures
            r.secs == seconds_until(point.secs, now.at),
    {
        let whole: i128 = point.secs as i128 - now.at.secs as i128;
        let nanos: i128 = whole * 1_000_000_000 - now.at.nanos as i128;
        TimeSpan { secs: nanos / 1_000_000_000 }
    }
}

/// Says how long a span is, for showing beside a usage figure.
pub fn format_duration(span: TimeSpan) -> (text: String)
    ensures
        text@ == duration_text(span.secs as int),
{
    let mut text = String::new();
    if span.secs < 60 {
        text.append("soon");
        assert(text@ =~= "soon"@);
        return text;
    }
    let total_hours: u128 = (span.secs / 3600) as u128;
    let days: u128 = total_hours / 24;
    let hours: u128 = total_hours % 24;
    if days > 0 {
        push_decimal(&mut text, days);
        text.append("d ");
        push_decimal(&mut text, hours);
        text.append("h left");
        assert(text@ =~= decimal_text(days as nat) + "d "@ + decimal_text(hours as nat) + "h left"@);
    } else if hours > 0 {
        push_decimal(&mut text, hours);
        text.append("h left");
        assert(text@ =~= decimal_text(hours as nat) + "h left"@);
    } else {
        let minutes: u128 = (span.secs / 60) as u128;
        push_decimal(&mut text, minutes);
        text.append("m left");
        assert(text@ =~= decimal_text(minutes as nat) + "m left"@);
    }
    text
}

} // verus!
