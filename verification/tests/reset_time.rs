use chrono::{Datelike, Local, TimeZone};
use usage_bar::clock::{CivilDate, Instant, Now};
use usage_bar::phrase::{parse_phrase, parse_time, ClockTime, MonthDay, ResetPhrase};
use usage_bar::reset::{
    parse_reset_time, parse_reset_time_at, pick_bare_reset, point_from_answer, target_date, ResetPoint,
};

fn local_secs(year: i32, month: u32, day: u32, hour: u32, minute: u32, second: u32) -> i64 {
    Local
        .with_ymd_and_hms(year, month, day, hour, minute, second)
        .single()
        .unwrap()
        .timestamp()
}

fn reading(year: i32, month: u32, day: u32, hour: u32, minute: u32, second: u32) -> Now {
    Now {
        date: CivilDate { year, month, day },
        at: Instant { secs: local_secs(year, month, day, hour, minute, second), nanos: 0 },
    }
}

#[test]
fn test_parse_reset_time_today() {
    let result = parse_reset_time("3pm");
    assert!(result.is_some(), "Should parse '3pm'");
}

#[test]
fn test_parse_reset_time_future_date() {
    let result = parse_reset_time("Jan 29 at 5:59pm");
    assert!(result.is_some(), "Should parse 'Jan 29 at 5:59pm'");
}

#[test]
fn test_parse_time_am_pm() {
    assert!(parse_reset_time("3pm").is_some());
    assert!(parse_reset_time("12am").is_some());
    assert!(parse_reset_time("11:59pm").is_some());
    assert!(parse_reset_time("1:30am").is_some());
}

#[test]
fn test_parse_date_time() {
    assert!(parse_reset_time("Jan 29 at 5:59pm").is_some());
    assert!(parse_reset_time("Feb 1 at 12am").is_some());
    assert!(parse_reset_time("Dec 31 at 11:59pm").is_some());
}

#[test]
fn clock_times_map_to_the_24_hour_clock() {
    assert_eq!(parse_time("3pm"), Some(ClockTime { hour: 15, minute: 0 }));
    assert_eq!(parse_time("12am"), Some(ClockTime { hour: 0, minute: 0 }));
    assert_eq!(parse_time("12pm"), Some(ClockTime { hour: 12, minute: 0 }));
    assert_eq!(parse_time("11:59pm"), Some(ClockTime { hour: 23, minute: 59 }));
    assert_eq!(parse_time("1:30am"), Some(ClockTime { hour: 1, minute: 30 }));
    assert_eq!(parse_time("0pm"), Some(ClockTime { hour: 12, minute: 0 }));
    assert_eq!(parse_time("  3:05PM "), Some(ClockTime { hour: 15, minute: 5 }));
    assert_eq!(parse_time("+3pm"), Some(ClockTime { hour: 15, minute: 0 }));
    assert_eq!(parse_time("003:007am"), Some(ClockTime { hour: 3, minute: 7 }));
}

#[test]
fn texts_that_are_no_clock_time() {
    for text in [
        "", "pm", "3", "15", "3 pm", "13pm", "24am", "3:60pm", "3:pm", ":30pm", "3:xxpm",
        "3:30:45pm", "3pmpm", "three pm", "-3pm", "99999999999pm", "3p", "3:-5pm",
    ] {
        assert_eq!(parse_time(text), None, "{}", text);
    }
}

#[test]
fn phrases_with_and_without_a_date() {
    assert_eq!(
        parse_phrase("3pm"),
        Some(ResetPhrase { date: None, time: ClockTime { hour: 15, minute: 0 } })
    );
    assert_eq!(
        parse_phrase("Jan 29 at 5:59pm"),
        Some(ResetPhrase {
            date: Some(MonthDay { month: 1, day: 29 }),
            time: ClockTime { hour: 17, minute: 59 },
        })
    );
    assert_eq!(
        parse_phrase("DEC   05 at  12am"),
        Some(ResetPhrase {
            date: Some(MonthDay { month: 12, day: 5 }),
            time: ClockTime { hour: 0, minute: 0 },
        })
    );
    assert_eq!(
        parse_phrase("Feb 30 at 1pm"),
        Some(ResetPhrase {
            date: Some(MonthDay { month: 2, day: 30 }),
            time: ClockTime { hour: 13, minute: 0 },
        })
    );
}

#[test]
fn phrases_that_say_nothing() {
    for text in [
        "", "--", "soon", "Jan 29", "Jan 29 at", "Jan 29 at 5", "Jan 29 AT 5pm", "Janu 29 at 5pm",
        "Jan at 5pm", "Jan 29 30 at 5pm", "29 Jan at 5pm", "Jan 29 at 5pm at 6pm", " at 5pm",
        "Jan x at 5pm", "Jan 29 at 25pm",
    ] {
        assert_eq!(parse_phrase(text), None, "{}", text);
    }
}

#[test]
fn every_month_abbreviation_is_known() {
    let names = [
        "jan", "feb", "mar", "apr", "may", "jun", "jul", "aug", "sep", "oct", "nov", "dec",
    ];
    for (i, name) in names.iter().enumerate() {
        let phrase = parse_phrase(&format!("{} 1 at 1am", name)).unwrap();
        assert_eq!(phrase.date, Some(MonthDay { month: i as u32 + 1, day: 1 }));
    }
}

#[test]
fn bare_time_still_to_come_is_today() {
    let now = reading(2026, 1, 28, 10, 0, 0);
    let point = parse_reset_time_at("3pm", &now).unwrap();
    assert_eq!(point.date, CivilDate { year: 2026, month: 1, day: 28 });
    assert_eq!(point.time, ClockTime { hour: 15, minute: 0 });
    assert_eq!(point.secs, local_secs(2026, 1, 28, 15, 0, 0));
    assert_eq!(point.secs - now.at.secs, 5 * 3600);
}

#[test]
fn bare_time_gone_by_is_tomorrow() {
    let now = reading(2026, 1, 28, 23, 0, 0);
    let point = parse_reset_time_at("3pm", &now).unwrap();
    assert_eq!(point.date, CivilDate { year: 2026, month: 1, day: 29 });
    assert_eq!(point.secs, local_secs(2026, 1, 29, 15, 0, 0));
    assert_eq!(point.secs - now.at.secs, 16 * 3600);
}

#[test]
fn bare_time_rolls_over_month_and_year() {
    let now = reading(2026, 12, 31, 23, 30, 0);
    let point = parse_reset_time_at("1am", &now).unwrap();
    assert_eq!(point.date, CivilDate { year: 2027, month: 1, day: 1 });
    let now = reading(2028, 2, 28, 12, 0, 0);
    let point = parse_reset_time_at("11am", &now).unwrap();
    assert_eq!(point.date, CivilDate { year: 2028, month: 2, day: 29 });
    let now = reading(2027, 2, 28, 12, 0, 0);
    let point = parse_reset_time_at("11am", &now).unwrap();
    assert_eq!(point.date, CivilDate { year: 2027, month: 3, day: 1 });
}

#[test]
fn bare_time_at_this_very_second_is_today_unless_a_part_of_it_has_gone() {
    let mut now = reading(2026, 1, 28, 15, 0, 0);
    let point = parse_reset_time_at("3pm", &now).unwrap();
    assert_eq!(point.date, now.date);
    now.at.nanos = 1;
    let point = parse_reset_time_at("3pm", &now).unwrap();
    assert_eq!(point.date, CivilDate { year: 2026, month: 1, day: 29 });
}

#[test]
fn bare_time_is_never_past_and_never_more_than_a_day_away() {
    for hour in 0..24 {
        for minute in [0, 1, 30, 59] {
            let now = reading(2026, 1, 15, hour, minute, 7);
            for text in ["12am", "3am", "11:59am", "12pm", "3:30pm", "11:59pm"] {
                let point = parse_reset_time_at(text, &now).unwrap();
                let ahead = point.secs - now.at.secs;
                assert!(ahead >= 0, "{} at {}:{}", text, hour, minute);
                assert!(ahead <= 86400, "{} at {}:{}", text, hour, minute);
            }
        }
    }
}

#[test]
fn dated_phrase_means_this_year_until_its_day_is_over() {
    for (month, day) in [(1, 1), (1, 15), (1, 28), (1, 29)] {
        let now = reading(2026, month, day, 12, 0, 0);
        let point = parse_reset_time_at("Jan 29 at 5:59pm", &now).unwrap();
        assert_eq!(point.date, CivilDate { year: 2026, month: 1, day: 29 });
        assert_eq!(point.time, ClockTime { hour: 17, minute: 59 });
        assert_eq!(point.secs, local_secs(2026, 1, 29, 17, 59, 0));
    }
}

#[test]
fn dated_phrase_means_next_year_once_its_day_is_over() {
    for (month, day) in [(1, 30), (2, 1), (6, 15), (12, 31)] {
        let now = reading(2026, month, day, 12, 0, 0);
        let point = parse_reset_time_at("Jan 29 at 5:59pm", &now).unwrap();
        assert_eq!(point.date, CivilDate { year: 2027, month: 1, day: 29 });
        assert_eq!(point.secs, local_secs(2027, 1, 29, 17, 59, 0));
    }
}

#[test]
fn dates_that_the_calendar_does_not_have() {
    let now = reading(2026, 1, 15, 12, 0, 0);
    assert_eq!(parse_reset_time_at("Feb 30 at 1pm", &now), None);
    assert_eq!(parse_reset_time_at("Feb 29 at 1pm", &now), None);
    assert_eq!(parse_reset_time_at("Apr 31 at 1pm", &now), None);
    assert_eq!(parse_reset_time_at("Jan 0 at 1pm", &now), None);
    assert_eq!(parse_reset_time_at("Jan 32 at 1pm", &now), None);
    let leap = reading(2028, 1, 15, 12, 0, 0);
    assert!(parse_reset_time_at("Feb 29 at 1pm", &leap).is_some());
}

#[test]
fn target_date_knows_leap_years_and_the_range_of_years() {
    let md = MonthDay { month: 2, day: 29 };
    let in_year = |year: i32| CivilDate { year, month: 1, day: 1 };
    assert_eq!(target_date(&md, &in_year(2024)), Some(CivilDate { year: 2024, month: 2, day: 29 }));
    assert_eq!(target_date(&md, &in_year(2000)), Some(CivilDate { year: 2000, month: 2, day: 29 }));
    assert_eq!(target_date(&md, &in_year(1900)), None);
    assert_eq!(target_date(&md, &in_year(2026)), None);
    let first = MonthDay { month: 1, day: 1 };
    assert!(target_date(&first, &in_year(262142)).is_some());
    assert_eq!(target_date(&first, &in_year(262143)), None);
    assert!(target_date(&first, &in_year(-262143)).is_some());
    assert_eq!(target_date(&first, &in_year(-262144)), None);
    let last = CivilDate { year: 262142, month: 12, day: 31 };
    assert_eq!(target_date(&first, &last), None);
    let end_of_time = CivilDate { year: i32::MAX, month: 12, day: 31 };
    assert_eq!(target_date(&first, &end_of_time), None);
}

#[test]
fn unknown_date_of_the_reading_gives_no_point() {
    let now = Now {
        date: CivilDate { year: 2026, month: 2, day: 30 },
        at: Instant { secs: 0, nanos: 0 },
    };
    assert_eq!(parse_reset_time_at("3pm", &now), None);
}

#[test]
fn pick_between_today_and_tomorrow() {
    let time = ClockTime { hour: 15, minute: 0 };
    let today = CivilDate { year: 2026, month: 1, day: 28 };
    let tomorrow = ResetPoint {
        date: CivilDate { year: 2026, month: 1, day: 29 },
        time,
        secs: 1_086_400,
    };
    let before = Now { date: today, at: Instant { secs: 999_000, nanos: 5 } };
    assert_eq!(
        pick_bare_reset(time, &before, 1_000_000, Some(tomorrow)),
        Some(ResetPoint { date: today, time, secs: 1_000_000 })
    );
    let after = Now { date: today, at: Instant { secs: 1_000_000, nanos: 1 } };
    assert_eq!(pick_bare_reset(time, &after, 1_000_000, Some(tomorrow)), Some(tomorrow));
    assert_eq!(pick_bare_reset(time, &after, 1_000_000, None), None);
}

#[test]
fn wall_clock_result_agrees_with_the_clock() {
    let before = Local::now();
    let point = parse_reset_time("Dec 31 at 11:59pm").unwrap();
    assert_eq!((point.date.month, point.date.day), (12, 31));
    assert!(point.date.year == before.year() || point.date.year == before.year() + 1);
    assert_eq!(point.secs, local_secs(point.date.year, 12, 31, 23, 59, 0));
    assert!(point.secs >= before.timestamp() - 86400);
}

#[test]
fn a_point_is_made_of_the_answer_of_the_zone() {
    let date = CivilDate { year: 2026, month: 1, day: 29 };
    let time = ClockTime { hour: 17, minute: 59 };
    assert_eq!(
        point_from_answer(date, time, Some(1_769_709_540)),
        Some(ResetPoint { date, time, secs: 1_769_709_540 })
    );
    assert_eq!(point_from_answer(date, time, Some(i64::MIN)), Some(ResetPoint { date, time, secs: i64::MIN }));
    assert_eq!(point_from_answer(date, time, None), None);
}

#[test]
fn a_date_in_no_year_means_nothing_whatever_the_clock_reads() {
    for text in ["Feb 30 at 1pm", "Feb 31 at 1pm", "Apr 31 at 1pm", "Jun 31 at 9am", "Sep 31 at 9am",
                 "Nov 31 at 9am", "Jan 0 at 1pm", "Jan 32 at 1pm", "Dec 32 at 11:59pm", "Mar 4294967295 at 1am"] {
        assert_eq!(parse_reset_time(text), None, "{}", text);
    }
}
