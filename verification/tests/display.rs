use chrono::{Local, TimeZone};
use usage_bar::clock::{CivilDate, Instant, Now};
use usage_bar::display::{format_time_remaining, format_time_remaining_at, get_tray_title, render_remaining};
use usage_bar::duration::TimeSpan;
use usage_bar::usage::{AppState, UsageData, UsageItem};

fn reading(year: i32, month: u32, day: u32, hour: u32, minute: u32, second: u32) -> Now {
    let at = Local.with_ymd_and_hms(year, month, day, hour, minute, second).single().unwrap();
    Now { date: CivilDate { year, month, day }, at: Instant { secs: at.timestamp(), nanos: 0 } }
}

fn state_with(session: Option<i32>, weekly: Option<i32>) -> AppState {
    let mut usage = UsageData::empty();
    usage.session = UsageItem { percent: session, resets: None };
    usage.weekly_all = UsageItem { percent: weekly, resets: None };
    AppState::new(Some(usage), None)
}

#[test]
fn title_shows_the_two_percentages() {
    assert_eq!(get_tray_title(&state_with(Some(25), Some(50))), "25% 50%");
    assert_eq!(get_tray_title(&state_with(Some(0), Some(100))), "0% 100%");
    assert_eq!(get_tray_title(&state_with(Some(7), None)), "7% 0%");
    assert_eq!(get_tray_title(&state_with(Some(-3), Some(i32::MIN))), "-3% -2147483648%");
    assert_eq!(get_tray_title(&state_with(Some(i32::MAX), Some(1))), "2147483647% 1%");
}

#[test]
fn title_is_empty_where_percentages_are_not_shown() {
    let mut state = state_with(Some(25), Some(50));
    state.toggle_percentages();
    assert_eq!(get_tray_title(&state), "");
}

#[test]
fn title_is_three_dots_without_a_session_percentage() {
    assert_eq!(get_tray_title(&AppState::new(None, None)), "...");
    assert_eq!(get_tray_title(&state_with(None, Some(50))), "...");
    let mut hidden = state_with(None, None);
    hidden.toggle_percentages();
    assert_eq!(get_tray_title(&hidden), "...");
}

#[test]
fn title_is_a_warning_sign_after_a_failure() {
    let mut state = state_with(Some(25), Some(50));
    state.apply(UsageData::failed("boom".to_string()));
    assert_eq!(get_tray_title(&state), "⚠️");
    state.toggle_percentages();
    assert_eq!(get_tray_title(&state), "⚠️");
    state.apply(state.usage.clone());
    state.toggle_percentages();
    assert_eq!(get_tray_title(&state), "25% 50%");
}

#[test]
fn remaining_time_is_told_as_a_duration() {
    assert_eq!(render_remaining("3pm", Some(TimeSpan::hours(5))), "5h left");
    assert_eq!(render_remaining("Jan 29 at 5pm", Some(TimeSpan::hours(49))), "2d 1h left");
    assert_eq!(render_remaining("3pm", Some(TimeSpan::seconds(1))), "soon");
    assert_eq!(render_remaining("3pm", Some(TimeSpan::seconds(59))), "soon");
    assert_eq!(render_remaining("3pm", Some(TimeSpan::seconds(60))), "1m left");
}

#[test]
fn without_time_left_the_phrase_is_shown() {
    assert_eq!(render_remaining("3pm", None), "Resets today 3pm");
    assert_eq!(render_remaining("3pm", Some(TimeSpan::seconds(0))), "Resets today 3pm");
    assert_eq!(render_remaining("3pm", Some(TimeSpan::hours(-2))), "Resets today 3pm");
    assert_eq!(render_remaining("Jan 29 at 5pm", None), "Resets Jan 29 at 5pm");
    assert_eq!(render_remaining("Jan 29 at 5pm", Some(TimeSpan::seconds(-1))), "Resets Jan 29 at 5pm");
    assert_eq!(render_remaining("--", None), "Resets today --");
    assert_eq!(render_remaining("", None), "Resets today ");
    // Any `at` counts, inside a word too.
    assert_eq!(render_remaining("Saturday", None), "Resets Saturday");
    assert_eq!(render_remaining("AT noon", None), "Resets today AT noon");
}

#[test]
fn remaining_time_seen_from_a_reading() {
    let now = reading(2026, 1, 28, 10, 0, 0);
    assert_eq!(format_time_remaining_at("3pm", &now), "5h left");
    assert_eq!(format_time_remaining_at("10:30am", &now), "30m left");
    assert_eq!(format_time_remaining_at("10am", &now), "Resets today 10am");
    assert_eq!(format_time_remaining_at("9am", &now), "23h left");
    assert_eq!(format_time_remaining_at("Jan 29 at 5:59pm", &now), "1d 7h left");
    assert_eq!(format_time_remaining_at("Jan 28 at 9am", &now), "Resets Jan 28 at 9am");
    assert_eq!(format_time_remaining_at("Jan 27 at 9am", &now), "363d 23h left");
    assert_eq!(format_time_remaining_at("Feb 30 at 9am", &now), "Resets Feb 30 at 9am");
    assert_eq!(format_time_remaining_at("tomorrow", &now), "Resets today tomorrow");
    assert_eq!(format_time_remaining_at("--", &now), "Resets today --");
    let a_moment_later = Now { date: now.date, at: Instant { secs: now.at.secs, nanos: 1 } };
    assert_eq!(format_time_remaining_at("3pm", &a_moment_later), "4h left");
    assert_eq!(format_time_remaining_at("10am", &a_moment_later), "23h left");
}

#[test]
fn remaining_time_seen_from_the_clock_is_never_empty() {
    for phrase in ["3pm", "12am", "Jan 29 at 5:59pm", "Dec 31 at 11:59pm", "--", "", "whenever", "Feb 30 at 1pm"] {
        assert!(!format_time_remaining(phrase).is_empty(), "{}", phrase);
    }
    assert_eq!(format_time_remaining("whenever"), "Resets today whenever");
    assert_eq!(format_time_remaining("Feb 30 at 1pm"), "Resets Feb 30 at 1pm");
    let shown = format_time_remaining("Dec 31 at 11:59pm");
    assert!(shown.ends_with(" left") || shown == "soon" || shown == "Resets Dec 31 at 11:59pm", "{}", shown);
}

#[test]
fn a_date_in_no_year_is_shown_as_it_is() {
    assert_eq!(format_time_remaining("Feb 30 at 3pm"), "Resets Feb 30 at 3pm");
    assert_eq!(format_time_remaining("Apr 31 at 9am"), "Resets Apr 31 at 9am");
    assert_eq!(format_time_remaining("Jan 0 at 12am"), "Resets Jan 0 at 12am");
    assert_eq!(format_time_remaining(""), "Resets today ");
    let now = reading(2026, 1, 15, 12, 0, 0);
    assert_eq!(format_time_remaining_at("Feb 29 at 1pm", &now), "Resets Feb 29 at 1pm");
}

#[test]
fn a_reset_that_is_over_is_shown_as_its_phrase() {
    let now = reading(2026, 1, 29, 20, 0, 0);
    assert_eq!(format_time_remaining_at("Jan 29 at 5:59pm", &now), "Resets Jan 29 at 5:59pm");
    let at_the_second = reading(2026, 1, 29, 17, 59, 0);
    assert_eq!(format_time_remaining_at("Jan 29 at 5:59pm", &at_the_second), "Resets Jan 29 at 5:59pm");
    let just_before = reading(2026, 1, 29, 17, 58, 59);
    assert_eq!(format_time_remaining_at("Jan 29 at 5:59pm", &just_before), "soon");
}
