//! What is shown of the store: the title, and one line for each bucket.

use vstd::prelude::*;
use vstd::string::*;
use crate::clock::{local_now, Now};
use crate::duration::{duration_text, format_duration, seconds_until, TimeSpan};
use crate::reset::{lemma_means_nothing, means_nothing, means_nothing_on, parse_reset_time_at};
use crate::text::{chars_of, contains, find_in, int_text, push_int};
use crate::usage::{AppState, AppStateView};

verus! {

/// The hours of a session period.
pub const SESSION_HOURS: i32 = 4;

/// The hours of a weekly period.
pub const WEEK_HOURS: i32 = 168;

/// What stands in for a reset phrase that is missing.
pub open spec fn no_phrase() -> Seq<char> {
    "--"@
}

/// The text for the time left until a reset. A span of a second or more is
/// told as a duration. Without one, or with one that is over, the phrase
/// itself is shown: as it is if it holds `at`, and as a time of today if not.
pub open spec fn remaining_text(phrase: Seq<char>, remaining: Option<int>) -> Seq<char> {
    if remaining is Some && remaining->0 > 0 {
        duration_text(remaining->0)
    } else if contains(phrase, "at"@) {
        "Resets "@ + phrase
    } else {
        "Resets today "@ + phrase
    }
}

/// The seconds of a span that may be missing.
pub open spec fn seconds_of(remaining: Option<TimeSpan>) -> Option<int> {
    match remaining {
        Some(span) => Some(span.secs as int),
        None => None,
    }
}

/// The title: a warning sign after a failure; else the session and weekly
/// percentages, or nothing where they are not to be shown; and three dots
/// as long as no session percentage is known.
pub open spec fn title_of(state: AppStateView) -> Seq<char> {
    if state.last_error is Some {
        "\u{26A0}\u{FE0F}"@
    } else if state.usage.session.percent is Some {
        if state.show_percentages {
            int_text(state.usage.session.percent->0) + "% "@ + int_text(
                match state.usage.weekly_all.percent {
                    Some(p) => p,
                    None => 0,
                },
            ) + "%"@
        } else {
            Seq::<char>::empty()
        }
    } else {
        "..."@
    }
}

/// Whatever the phrase and the span, the text for the time left is not empty.
pub proof fn lemma_remaining_text_not_empty(phrase: Seq<char>, remaining: Option<int>)
    ensures
        remaining_text(phrase, remaining).len() > 0,
{
    reveal_strlit("soon");
    reveal_strlit("h left");
    reveal_strlit("m left");
    reveal_strlit("Resets ");
    reveal_strlit("Resets today ");
}

/// Says how long is left until a reset, given the span until then if the
/// phrase could be resolved. Never empty.
pub fn render_remaining(resets: &str, remaining: Option<TimeSpan>) -> (text: String)
    ensures
        text@ == remaining_text(resets@, seconds_of(remaining)),
        text@.len() > 0,
{
    proof {
        lemma_remaining_text_not_empty(resets@, seconds_of(remaining));
    }
    match remaining {
        Some(span) => {
            if span.secs > 0 {
                return format_duration(span);
            }
        },
        None => {},
    }
    let mut text = String::new();
    if find_in(&chars_of(resets), &chars_of("at")).is_some() {
        text.append("Resets ");
        text.append(resets);
        assert(text@ =~= "Resets "@ + resets@);
    } else {
        text.append("Resets today ");
        text.append(resets);
        assert(text@ =~= "Resets today "@ + resets@);
    }
    text
}

/// Says how long is left until the reset that a phrase means, seen from the reading `now`.
///
/// The text is never empty. It is a duration of a second or more, or else
/// the phrase itself behind `Resets` or `Resets today`. A phrase that means
/// nothing on the day of the reading is shown as it is. Otherwise the text
/// follows from the instant that the machine's time zone gives for the
/// phrase: it is `render_remaining` of the span until then.
pub fn format_time_remaining_at(resets: &str, now: &Now) -> (text: String)
    ensures
        text@.len() > 0,
        means_nothing_on(resets@, now.date) ==> text@ == remaining_text(resets@, None),
        text@ == remaining_text(resets@, None) || exists|secs: i64|
            #[trigger] seconds_until(secs, now.at) > 0 && text@ == duration_text(
                seconds_until(secs, now.at),
            ),
{
    let found = parse_reset_time_at(resets, now);
    let remaining = match found {
        Some(point) => Some(TimeSpan::until(&point, now)),
        None => None,
    };
    let text = render_remaining(resets, remaining);
    proof {
        match found {
            Some(point) => {
                if seconds_until(point.secs, now.at) > 0 {
                    assert(text@ == duration_text(seconds_until(point.secs, now.at)));
                }
            },
            None => {},
        }
    }
    text
}

/// Says how long is left until the reset that a phrase means, seen from the machine's clock.
///
/// What the clock reads is not known beforehand. Whatever it reads, the text
/// is never empty: it is a duration of a second or more, or else the phrase
/// itself behind `Resets` or `Resets today`; and a phrase that means nothing
/// on any day is shown as it is.
pub fn format_time_remaining(resets: &str) -> (text: String)
    ensures
        text@.len() > 0,
        means_nothing(resets@) ==> text@ == remaining_text(resets@, None),
        text@ == remaining_text(resets@, None) || exists|secs: int|
            secs > 0 && text@ == #[trigger] duration_text(secs),
{
    let now = local_now();
    proof {
        if means_nothing(resets@) {
            lemma_means_nothing(resets@, now.date);
        }
    }
    let text = format_time_remaining_at(resets, &now);
    proof {
        if text@ != remaining_text(resets@, None) {
            let secs = choose|secs: i64|
                #[trigger] seconds_until(secs, now.at) > 0 && text@ == duration_text(
                    seconds_until(secs, now.at),
                );
            assert(seconds_until(secs, now.at) > 0 && text@ == duration_text(
                seconds_until(secs, now.at),
            ));
        }
    }
    text
}

/// The title shown beside the icon.
pub fn get_tray_title(state: &AppState) -> (title: String)
    ensures
        title@ == title_of(state@),
{
    if state.last_error.is_some() {
        String::from_str("\u{26A0}\u{FE0F}")
    } else {
        match state.usage.session.percent {
            Some(session) => {
                let mut title = String::new();
                if state.show_percentages {
                    let weekly: i32 = match state.usage.weekly_all.percent {
                        Some(p) => p,
                        None => 0,
                    };
                    push_int(&mut title, session as i128);
                    title.append("% ");
                    push_int(&mut title, weekly as i128);
                    title.append("%");
                    assert(title@ =~= int_text(session as int) + "% "@ + int_text(weekly as int)
                        + "%"@);
                }
                title
            },
            None => String::from_str("..."),
        }
    }
}

} // verus!
