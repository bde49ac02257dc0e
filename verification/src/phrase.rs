//! The grammar of reset phrases: a clock time such as `3:59pm`, alone or after
//! a month and a day, as in `Jan 29 at 5:59pm`.

use vstd::prelude::*;
use crate::text::{
    chars_of, contains, find, find_in, lowered, lowered_copy, number_of, parse_number, same_chars,
    skip_spaces, skip_word, slice_of, spaces_end, trim, trimmed, word_end,
};

verus! {

/// A time of day on the 24-hour clock, to the minute.
#[derive(Clone, Copy, Debug, PartialEq, Eq, Structural)]
pub struct ClockTime {
    pub hour: u32,
    pub minute: u32,
}

/// A month (1 to 12) and a day as written; whether that day exists is for the calendar to say.
#[derive(Clone, Copy, Debug, PartialEq, Eq, Structural)]
pub struct MonthDay {
    pub month: u32,
    pub day: u32,
}

/// What a reset phrase says: a time of day, and the month and day if it names them.
#[derive(Clone, Copy, Debug, PartialEq, Eq)]
pub struct ResetPhrase {
    pub date: Option<MonthDay>,
    pub time: ClockTime,
}

impl ClockTime {
    /// An hour below 24 and a minute below 60.
    pub open spec fn is_valid(self) -> bool {
        self.hour < 24 && self.minute < 60
    }

    /// Seconds from midnight.
    pub open spec fn second_of_day(self) -> int {
        self.hour * 3600 + self.minute * 60
    }
}

/// The hour on the 24-hour clock: 12am is 0, 12pm stays 12, every other pm hour gains 12.
pub open spec fn hour_of_day(hour: u32, pm: bool) -> int {
    if pm && hour != 12 {
        hour + 12
    } else if !pm && hour == 12 {
        0
    } else {
        hour as int
    }
}

/// The clock time that a text writes: `<hour>[:<minute>]<am|pm>`, in either case of
/// letters and with white space allowed around it. Any other text writes none.
pub open spec fn clock_time_of(s: Seq<char>) -> Option<ClockTime> {
    let t = lowered(trim(s));
    let n = t.len() as int;
    if n < 2 || t[n - 1] != 'm' || (t[n - 2] != 'a' && t[n - 2] != 'p') {
        None
    } else {
        let pm = t[n - 2] == 'p';
        let body = t.subrange(0, n - 2);
        let colon = find(body, seq![':']);
        let hour = if colon < 0 {
            number_of(body)
        } else {
            number_of(body.subrange(0, colon))
        };
        let minute = if colon < 0 {
            Some(0u32)
        } else {
            number_of(body.subrange(colon + 1, body.len() as int))
        };
        match (hour, minute) {
            (Some(h), Some(m)) => if hour_of_day(h, pm) < 24 && m < 60 {
                Some(ClockTime { hour: hour_of_day(h, pm) as u32, minute: m })
            } else {
                None
            },
            _ => None,
        }
    }
}

/// The month that a three-letter English abbreviation names, in either case of letters.
pub open spec fn month_of(word: Seq<char>) -> Option<u32> {
    let w = lowered(word);
    if w == "jan"@ {
        Some(1u32)
    } else if w == "feb"@ {
        Some(2u32)
    } else if w == "mar"@ {
        Some(3u32)
    } else if w == "apr"@ {
        Some(4u32)
    } else if w == "may"@ {
        Some(5u32)
    } else if w == "jun"@ {
        Some(6u32)
    } else if w == "jul"@ {
        Some(7u32)
    } else if w == "aug"@ {
        Some(8u32)
    } else if w == "sep"@ {
        Some(9u32)
    } else if w == "oct"@ {
        Some(10u32)
    } else if w == "nov"@ {
        Some(11u32)
    } else if w == "dec"@ {
        Some(12u32)
    } else {
        None
    }
}

/// The month and day that a text writes: exactly two words, a month abbreviation
/// and a number, with white space between and possibly around them.
pub open spec fn month_day_of(s: Seq<char>) -> Option<MonthDay> {
    let d = trim(s);
    let a = word_end(d, 0);
    let b = spaces_end(d, a);
    let c = word_end(d, b);
    if 0 < a && a < b && b < c && c == d.len() {
        match (month_of(d.subrange(0, a)), number_of(d.subrange(b, c))) {
            (Some(month), Some(day)) => Some(MonthDay { month, day }),
            _ => None,
        }
    } else {
        None
    }
}

/// What a reset phrase says. A text that holds ` at ` must hold it once, with a
/// month and day before it and a clock time after it; a text without it must be
/// a clock time. Any other text says nothing.
pub open spec fn phrase_of(s: Seq<char>) -> Option<ResetPhrase> {
    let at = find(s, " at "@);
    if at < 0 {
        match clock_time_of(s) {
            Some(time) => Some(ResetPhrase { date: None, time }),
            None => None,
        }
    } else {
        let left = s.subrange(0, at);
        let right = s.subrange(at + " at "@.len(), s.len() as int);
        if contains(right, " at "@) {
            None
        } else {
            match (month_day_of(left), clock_time_of(right)) {
                (Some(date), Some(time)) => Some(ResetPhrase { date: Some(date), time }),
                _ => None,
            }
        }
    }
}

/// Reads a clock time from characters.
pub fn read_clock_time(v: &Vec<char>) -> (r: Option<ClockTime>)
    ensures
        r == clock_time_of(v@),
        r matches Some(t) ==> t.is_valid(),
{
    let t = lowered_copy(&trimmed(v));
    let n = t.len();
    if n < 2 || t[n - 1] != 'm' || (t[n - 2] != 'a' && t[n - 2] != 'p') {
        return None;
    }
    let pm = t[n - 2] == 'p';
    let body = slice_of(&t, 0, n - 2);
    let colon_mark: Vec<char> = vec![':'];
    assert(colon_mark@ =~= seq![':']);
    let hour: Option<u32>;
    let minute: Option<u32>;
    match find_in(&body, &colon_mark) {
        None => {
            hour = parse_number(&body);
            minute = Some(0);
        },
        Some(i) => {
            hour = parse_number(&slice_of(&body, 0, i));
            minute = parse_number(&slice_of(&body, i + 1, body.len()));
        },
    }
    match (hour, minute) {
        (Some(h), Some(m)) => {
            if m >= 60 {
                None
            } else if pm {
                if h == 12 {
                    Some(ClockTime { hour: 12, minute: m })
                } else if h < 12 {
                    Some(ClockTime { hour: h + 12, minute: m })
                } else {
                    None
                }
            } else {
                if h == 12 {
                    Some(ClockTime { hour: 0, minute: m })
                } else if h < 24 {
                    Some(ClockTime { hour: h, minute: m })
                } else {
                    None
                }
            }
        },
        _ => None,
    }
}

/// Reads a clock time such as `3pm` or `11:59pm`.
pub fn parse_time(s: &str) -> (r: Option<ClockTime>)
    ensures
        r == clock_time_of(s@),
        r matches Some(t) ==> t.is_valid(),
{
    read_clock_time(&chars_of(s))
}

/// Reads a month abbreviation.
pub fn read_month(word: &Vec<char>) -> (r: Option<u32>)
    ensures
        r == month_of(word@),
        r matches Some(m) ==> 1 <= m <= 12,
{
    let w = lowered_copy(word);
    if same_chars(&w, &chars_of("jan")) {
        Some(1)
    } else if same_chars(&w, &chars_of("feb")) {
        Some(2)
    } else if same_chars(&w, &chars_of("mar")) {
        Some(3)
    } else if same_chars(&w, &chars_of("apr")) {
        Some(4)
    } else if same_chars(&w, &chars_of("may")) {
        Some(5)
    } else if same_chars(&w, &chars_of("jun")) {
        Some(6)
    } else if same_chars(&w, &chars_of("jul")) {
        Some(7)
    } else if same_chars(&w, &chars_of("aug")) {
        Some(8)
    } else if same_chars(&w, &chars_of("sep")) {
        Some(9)
    } else if same_chars(&w, &chars_of("oct")) {
        Some(10)
    } else if same_chars(&w, &chars_of("nov")) {
        Some(11)
    } else if same_chars(&w, &chars_of("dec")) {
        Some(12)
    } else {
        None
    }
}

/// Reads a month and a day from characters.
pub fn read_month_day(v: &Vec<char>) -> (r: Option<MonthDay>)
    ensures
        r == month_day_of(v@),
        r matches Some(md) ==> 1 <= md.month <= 12,
{
    let d = trimmed(v);
    let a = skip_word(&d, 0);
    let b = skip_spaces(&d, a);
    let c = skip_word(&d, b);
    if 0 < a && a < b && b < c && c == d.len() {
        match (read_month(&slice_of(&d, 0, a)), parse_number(&slice_of(&d, b, c))) {
            (Some(month), Some(day)) => Some(MonthDay { month, day }),
            _ => None,
        }
    } else {
        None
    }
}

/// Reads a reset phrase from characters.
pub fn read_phrase(v: &Vec<char>) -> (r: Option<ResetPhrase>)
    ensures
        r == phrase_of(v@),
        r matches Some(p) ==> p.time.is_valid() && (p.date matches Some(md) ==> 1 <= md.month
            <= 12),
{
    let at_mark = chars_of(" at ");
    match find_in(v, &at_mark) {
        None => match read_clock_time(v) {
            Some(time) => Some(ResetPhrase { date: None, time }),
            None => None,
        },
        Some(at) => {
            let left = slice_of(v, 0, at);
            let right = slice_of(v, at + at_mark.len(), v.len());
            match find_in(&right, &at_mark) {
                Some(_) => None,
                None => match (read_month_day(&left), read_clock_time(&right)) {
                    (Some(date), Some(time)) => Some(ResetPhrase { date: Some(date), time }),
                    _ => None,
                },
            }
        },
    }
}

/// Reads a reset phrase such as `3pm` or `Jan 29 at 5:59pm`.
pub fn parse_phrase(s: &str) -> (r: Option<ResetPhrase>)
    ensures
        r == phrase_of(s@),
        r matches Some(p) ==> p.time.is_valid() && (p.date matches Some(md) ==> 1 <= md.month
            <= 12),
{
    read_phrase(&chars_of(s))
}

} // verus!
