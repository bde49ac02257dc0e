use chrono::{Local, TimeZone};
use usage_bar::clock::{CivilDate, Instant, Now};
use usage_bar::duration::TimeSpan;
use usage_bar::pace::{classify, get_status_indicator_paced, status_at, Severity};

fn reading(year: i32, month: u32, day: u32, hour: u32, minute: u32) -> Now {
    let at = Local.with_ymd_and_hms(year, month, day, hour, minute, 0).single().unwrap();
    Now { date: CivilDate { year, month, day }, at: Instant { secs: at.timestamp(), nanos: 0 } }
}

#[test]
fn test_pace_indicator_under_pace() {
    // 30% usage with 50% time elapsed = under pace = green
    let now = reading(2026, 1, 28, 13, 0);
    let indicator = status_at(30, Some("3pm"), 4, &now).glyph();
    assert_eq!(indicator, "🟢", "Under pace should be green");
}

#[test]
fn test_pace_indicator_over_pace() {
    // 90% usage = always red regardless of pace
    let indicator = get_status_indicator_paced(90, Some("3pm"), 4);
    assert_eq!(indicator, "🔴", "90%+ should always be red");
}

#[test]
fn glyphs_of_the_four_severities() {
    assert_eq!(Severity::Critical.glyph(), "🔴");
    assert_eq!(Severity::High.glyph(), "🟠");
    assert_eq!(Severity::Elevated.glyph(), "🟡");
    assert_eq!(Severity::Nominal.glyph(), "🟢");
}

#[test]
fn ceiling_dominates_whatever_the_pace() {
    for usage in [90, 95, 100, 250, i32::MAX] {
        for remaining in [None, Some(TimeSpan::hours(-500)), Some(TimeSpan::hours(0)), Some(TimeSpan::hours(4)), Some(TimeSpan::hours(i64::MAX))] {
            for period in [-1, 0, 1, 4, 168, i32::MAX] {
                assert_eq!(classify(usage, remaining, period), Severity::Critical);
            }
        }
        assert_eq!(get_status_indicator_paced(usage, None, 4), "🔴");
        assert_eq!(get_status_indicator_paced(usage, Some("no phrase"), 168), "🔴");
        assert_eq!(get_status_indicator_paced(usage, Some("Jan 29 at 5:59pm"), 168), "🔴");
    }
}

#[test]
fn unknown_reset_counts_as_half_the_period() {
    assert_eq!(classify(89, None, 4), Severity::Critical);
    assert_eq!(classify(70, None, 4), Severity::Critical);
    assert_eq!(classify(69, None, 4), Severity::High);
    assert_eq!(classify(60, None, 4), Severity::High);
    assert_eq!(classify(59, None, 4), Severity::Elevated);
    assert_eq!(classify(51, None, 4), Severity::Elevated);
    assert_eq!(classify(50, None, 4), Severity::Nominal);
    assert_eq!(classify(0, None, 4), Severity::Nominal);
    assert_eq!(classify(-5, None, 4), Severity::Nominal);
    assert_eq!(get_status_indicator_paced(60, None, 4), "🟠");
    assert_eq!(get_status_indicator_paced(51, Some("whenever"), 4), "🟡");
    assert_eq!(get_status_indicator_paced(50, Some("--"), 168), "🟢");
}

#[test]
fn a_period_that_is_not_positive_counts_as_half_gone() {
    assert_eq!(classify(60, Some(TimeSpan::hours(1)), 0), Severity::High);
    assert_eq!(classify(50, Some(TimeSpan::hours(1)), -4), Severity::Nominal);
}

#[test]
fn elapsed_share_is_measured_in_whole_hours() {
    // 4 hour period, 1 hour left: 75% gone.
    assert_eq!(classify(75, Some(TimeSpan::hours(1)), 4), Severity::Nominal);
    assert_eq!(classify(76, Some(TimeSpan::hours(1)), 4), Severity::Elevated);
    assert_eq!(classify(85, Some(TimeSpan::hours(1)), 4), Severity::High);
    // 1 hour 59 minutes left count as 1 hour.
    assert_eq!(classify(75, Some(TimeSpan::seconds(7140)), 4), Severity::Nominal);
    // The whole period left: nothing gone.
    assert_eq!(classify(1, Some(TimeSpan::hours(4)), 4), Severity::Elevated);
    assert_eq!(classify(0, Some(TimeSpan::hours(4)), 4), Severity::Nominal);
    assert_eq!(classify(10, Some(TimeSpan::hours(4)), 4), Severity::High);
    assert_eq!(classify(20, Some(TimeSpan::hours(4)), 4), Severity::Critical);
}

#[test]
fn elapsed_share_rounds_toward_zero() {
    // 168 hour period, 167 hours left: 100/168 rounds to 0.
    assert_eq!(classify(0, Some(TimeSpan::hours(167)), 168), Severity::Nominal);
    assert_eq!(classify(1, Some(TimeSpan::hours(167)), 168), Severity::Elevated);
    // 169 hours left: -100/168 rounds to 0 as well, not to -1.
    assert_eq!(classify(0, Some(TimeSpan::hours(169)), 168), Severity::Nominal);
    assert_eq!(classify(10, Some(TimeSpan::hours(169)), 168), Severity::High);
    // 84 hours left: exactly half.
    assert_eq!(classify(50, Some(TimeSpan::hours(84)), 168), Severity::Nominal);
    assert_eq!(classify(51, Some(TimeSpan::hours(84)), 168), Severity::Elevated);
    // 100 hours left: 6800/168 = 40.47 rounds to 40.
    assert_eq!(classify(40, Some(TimeSpan::hours(100)), 168), Severity::Nominal);
    assert_eq!(classify(41, Some(TimeSpan::hours(100)), 168), Severity::Elevated);
}

#[test]
fn more_left_than_the_period_is_long() {
    // 20 hours until the reset of a 4 hour period: -400% gone.
    assert_eq!(classify(0, Some(TimeSpan::hours(20)), 4), Severity::Critical);
    // A reset long past: far more than all of the period gone.
    assert_eq!(classify(89, Some(TimeSpan::hours(-100)), 4), Severity::Nominal);
    assert_eq!(classify(0, Some(TimeSpan { secs: i128::MAX }), i32::MAX), Severity::Critical);
    assert_eq!(classify(89, Some(TimeSpan { secs: i128::MIN }), 1), Severity::Nominal);
}

#[test]
fn status_follows_the_reading_of_the_clock() {
    // Session of 4 hours that resets at 3pm.
    // Four whole hours left: nothing gone.
    assert_eq!(status_at(30, Some("3pm"), 4, &reading(2026, 1, 28, 10, 30)), Severity::Critical);
    assert_eq!(status_at(15, Some("3pm"), 4, &reading(2026, 1, 28, 10, 30)), Severity::High);
    // Three whole hours left: a quarter gone.
    assert_eq!(status_at(30, Some("3pm"), 4, &reading(2026, 1, 28, 11, 30)), Severity::Elevated);
    // Two whole hours left: half gone.
    assert_eq!(status_at(30, Some("3pm"), 4, &reading(2026, 1, 28, 12, 30)), Severity::Nominal);
    assert_eq!(status_at(30, Some("3pm"), 4, &reading(2026, 1, 28, 13, 30)), Severity::Nominal);
    assert_eq!(status_at(80, Some("3pm"), 4, &reading(2026, 1, 28, 14, 30)), Severity::Nominal);
    // Weekly period that resets in three and a half days.
    let now = reading(2026, 1, 26, 5, 59);
    assert_eq!(status_at(50, Some("Jan 29 at 5:59pm"), 168, &now), Severity::Nominal);
    assert_eq!(status_at(51, Some("Jan 29 at 5:59pm"), 168, &now), Severity::Elevated);
    assert_eq!(status_at(60, Some("Jan 29 at 5:59pm"), 168, &now), Severity::High);
    assert_eq!(status_at(70, Some("Jan 29 at 5:59pm"), 168, &now), Severity::Critical);
}

#[test]
fn a_phrase_that_means_nothing_counts_as_half_the_period() {
    for usage in [0, 25, 50, 51, 59, 60, 69, 70, 89, 100] {
        let expected = if usage >= 70 {
            "🔴"
        } else if usage >= 60 {
            "🟠"
        } else if usage >= 51 {
            "🟡"
        } else {
            "🟢"
        };
        for period in [1, 4, 168, 1000] {
            assert_eq!(get_status_indicator_paced(usage, None, period), expected);
            for phrase in ["garbage", "", "Feb 30 at 3pm", "Apr 31 at 9am", "Jan 0 at 1pm", "3:xxpm"] {
                assert_eq!(get_status_indicator_paced(usage, Some(phrase), period), expected, "{} {}", usage, phrase);
            }
        }
    }
}

#[test]
fn a_date_that_this_year_does_not_have_counts_as_half_the_period() {
    // Seen in January of a common year, the 29th of February is not on the calendar.
    let now = reading(2026, 1, 15, 12, 0);
    assert_eq!(status_at(60, Some("Feb 29 at 1pm"), 168, &now), Severity::High);
    assert_eq!(status_at(50, Some("Feb 29 at 1pm"), 168, &now), Severity::Nominal);
    assert_eq!(status_at(60, Some("Feb 30 at 1pm"), 4, &now), Severity::High);
    assert_eq!(status_at(60, None, 4, &now), Severity::High);
}
