//! The menu under the icon: a line for each bucket, the time of the last
//! reading, and the commands.

use vstd::prelude::*;
use vstd::string::*;
use crate::clock::{local_now, read_stamp, stamp_of, CivilDate, Now, Stamp};
use crate::display::{remaining_text, render_remaining, seconds_of, SESSION_HOURS, WEEK_HOURS};
use crate::duration::TimeSpan;
use crate::pace::{classify, glyph_of, pace_percent, severity_of};
use crate::reset::{lemma_means_nothing, means_nothing, means_nothing_on, parse_reset_time_at};
use crate::text::{
    chars_of, find, find_in, int_text, push_int, same_chars, slice_of, text_of,
};
use crate::usage::{text_view, AppState, AppStateView, UsageItem, UsageItemView};

verus! {

/// The format in which a snapshot's time stamp is written.
pub const STAMP_FORMAT: &'static str = "%Y-%m-%dT%H:%M:%S";

/// The character for a digit from 0 to 9.
pub open spec fn digit_char(d: int) -> char {
    ('0' as u8 + d as u8) as char
}

/// A number below a hundred in two digits, with a leading zero where it needs one.
pub open spec fn two_digits(n: int) -> Seq<char> {
    seq![digit_char((n / 10) % 10), digit_char(n % 10)]
}

/// The English abbreviation of a month; nothing for a number that is no month.
pub open spec fn month_abbreviation(month: int) -> Seq<char> {
    if month == 1 {
        "Jan"@
    } else if month == 2 {
        "Feb"@
    } else if month == 3 {
        "Mar"@
    } else if month == 4 {
        "Apr"@
    } else if month == 5 {
        "May"@
    } else if month == 6 {
        "Jun"@
    } else if month == 7 {
        "Jul"@
    } else if month == 8 {
        "Aug"@
    } else if month == 9 {
        "Sep"@
    } else if month == 10 {
        "Oct"@
    } else if month == 11 {
        "Nov"@
    } else if month == 12 {
        "Dec"@
    } else {
        Seq::<char>::empty()
    }
}

/// The second as it is shown: a leap second counts as the sixtieth.
pub open spec fn shown_second(stamp: Stamp) -> int {
    if stamp.nanosecond >= 1_000_000_000 {
        stamp.second + 1
    } else {
        stamp.second as int
    }
}

/// The time of day of a stamp as `HH:MM:SS`.
pub open spec fn clock_text(stamp: Stamp) -> Seq<char> {
    two_digits(stamp.hour as int) + seq![':'] + two_digits(stamp.minute as int) + seq![':']
        + two_digits(shown_second(stamp))
}

/// A stamp as it is shown: the time of day alone if it is of today, and
/// after the month and the day if it is of another day.
pub open spec fn stamp_text(stamp: Stamp, today: CivilDate) -> Seq<char> {
    if stamp.date == today {
        clock_text(stamp)
    } else {
        month_abbreviation(stamp.date.month as int) + seq![' '] + two_digits(stamp.date.day as int)
            + seq![' '] + clock_text(stamp)
    }
}

/// A time stamp without its fraction of a second: what stands before the first dot.
pub open spec fn whole_seconds_part(timestamp: Seq<char>) -> Seq<char> {
    let dot = find(timestamp, seq!['.']);
    if dot < 0 {
        timestamp
    } else {
        timestamp.subrange(0, dot)
    }
}

/// The time of the last reading as it is shown: the stamp that the text
/// writes, or the text itself where it writes none.
pub open spec fn updated_text(timestamp: Seq<char>, today: CivilDate) -> Seq<char> {
    match stamp_of(whole_seconds_part(timestamp), STAMP_FORMAT@) {
        Some(stamp) => stamp_text(stamp, today),
        None => timestamp,
    }
}

fn push_two_digits(out: &mut String, n: u64)
    ensures
        final(out)@ == old(out)@ + two_digits(n as int),
{
    let tens: u8 = ((n / 10) % 10) as u8;
    let ones: u8 = (n % 10) as u8;
    out.push(('0' as u8 + tens) as char);
    out.push(('0' as u8 + ones) as char);
    assert(final(out)@ =~= old(out)@ + two_digits(n as int));
}

fn month_name(month: u32) -> (r: &'static str)
    ensures
        r@ == month_abbreviation(month as int),
{
    proof {
        reveal_strlit("");
    }
    let name = match month {
        1 => "Jan",
        2 => "Feb",
        3 => "Mar",
        4 => "Apr",
        5 => "May",
        6 => "Jun",
        7 => "Jul",
        8 => "Aug",
        9 => "Sep",
        10 => "Oct",
        11 => "Nov",
        12 => "Dec",
        _ => "",
    };
    assert(name@ =~= month_abbreviation(month as int));
    name
}

/// Writes a stamp as it is shown on the day `today`.
pub fn render_stamp(stamp: &Stamp, today: &CivilDate) -> (text: String)
    ensures
        text@ == stamp_text(*stamp, *today),
{
    let mut text = String::new();
    let same_day = stamp.date.year == today.year && stamp.date.month == today.month
        && stamp.date.day == today.day;
    if !same_day {
        text.append(month_name(stamp.date.month));
        text.push(' ');
        push_two_digits(&mut text, stamp.date.day as u64);
        text.push(' ');
    }
    let ghost head = text@;
    let second: u64 = if stamp.nanosecond >= 1_000_000_000 {
        stamp.second as u64 + 1
    } else {
        stamp.second as u64
    };
    push_two_digits(&mut text, stamp.hour as u64);
    text.push(':');
    push_two_digits(&mut text, stamp.minute as u64);
    text.push(':');
    push_two_digits(&mut text, second);
    assert(text@ =~= head + clock_text(*stamp));
    assert(text@ =~= stamp_text(*stamp, *today));
    text
}

/// Says when the last reading was taken, on the day `today`.
pub fn updated_label(timestamp: &str, today: &CivilDate) -> (text: String)
    ensures
        text@ == updated_text(timestamp@, *today),
{
    let chars = chars_of(timestamp);
    let dot_mark: Vec<char> = vec!['.'];
    assert(dot_mark@ =~= seq!['.']);
    let whole = match find_in(&chars, &dot_mark) {
        Some(dot) => text_of(&slice_of(&chars, 0, dot)),
        None => text_of(&chars),
    };
    match read_stamp(whole.as_str(), STAMP_FORMAT) {
        Some(stamp) => render_stamp(&stamp, today),
        None => text_of(&chars),
    }
}

/// One entry of the menu: a line of text, which can be chosen if it is
/// enabled, and is then told by its id.
#[derive(Clone, Debug, PartialEq, Eq)]
pub struct MenuEntry {
    pub id: Option<String>,
    pub text: String,
    pub enabled: bool,
}

pub struct MenuEntryView {
    pub id: Option<Seq<char>>,
    pub text: Seq<char>,
    pub enabled: bool,
}

impl View for MenuEntry {
    type V = MenuEntryView;

    open spec fn view(&self) -> MenuEntryView {
        MenuEntryView { id: text_view(self.id), text: self.text@, enabled: self.enabled }
    }
}

/// What choosing an entry asks for.
#[derive(Clone, Copy, Debug, PartialEq, Eq, Structural)]
pub enum MenuCommand {
    Quit,
    TogglePercentages,
    ShowCharts,
    Refresh,
}

/// The line that parts the menu.
pub open spec fn separator() -> Seq<char> {
    "\u{2500}\u{2500}\u{2500}\u{2500}\u{2500}\u{2500}\u{2500}\u{2500}\u{2500}\u{2500}\u{2500}\u{2500}\u{2500}"@
}

/// An entry that only shows a text.
pub open spec fn label_entry(text: Seq<char>) -> MenuEntryView {
    MenuEntryView { id: None, text, enabled: false }
}

/// An entry that can be chosen.
pub open spec fn command_entry(id: Seq<char>, text: Seq<char>) -> MenuEntryView {
    MenuEntryView { id: Some(id), text, enabled: true }
}

/// The command that an id of the menu stands for.
pub open spec fn command_named(id: Seq<char>) -> Option<MenuCommand> {
    if id == "quit"@ {
        Some(MenuCommand::Quit)
    } else if id == "toggle_percentages"@ {
        Some(MenuCommand::TogglePercentages)
    } else if id == "charts"@ {
        Some(MenuCommand::ShowCharts)
    } else if id == "refresh"@ {
        Some(MenuCommand::Refresh)
    } else {
        None
    }
}

/// The percentage shown for an item: zero where none is known.
pub open spec fn shown_percent(item: UsageItemView) -> int {
    match item.percent {
        Some(p) => p,
        None => 0,
    }
}

/// The reset phrase shown for an item: two hyphens where none is known.
pub open spec fn shown_phrase(item: UsageItemView) -> Seq<char> {
    match item.resets {
        Some(phrase) => phrase,
        None => "--"@,
    }
}

/// The line for one bucket: the mark of its severity, its name and its
/// percentage; and, where asked for, the time left until its reset. The
/// severity and the time left follow from the span until the reset, which
/// is missing where the phrase could not be resolved.
pub open spec fn bucket_text(
    label: Seq<char>,
    item: UsageItemView,
    period_hours: int,
    with_remaining: bool,
    remaining: Option<TimeSpan>,
) -> Seq<char> {
    let severity = severity_of(shown_percent(item), pace_percent(remaining, period_hours));
    let head = glyph_of(severity) + " "@ + label + ": "@ + int_text(shown_percent(item)) + "%"@;
    if with_remaining {
        head + " | "@ + remaining_text(shown_phrase(item), seconds_of(remaining))
    } else {
        head
    }
}

/// The entries before the lines of the buckets: the last failure and a separator, if there was one.
pub open spec fn failure_entries(state: AppStateView) -> Seq<MenuEntryView> {
    match state.last_error {
        Some(message) => seq![
            label_entry("\u{26A0}\u{FE0F} "@ + message),
            label_entry(separator()),
        ],
        None => Seq::<MenuEntryView>::empty(),
    }
}

/// A line that is there or not, as an entry or none.
pub open spec fn optional_entry(line: Option<Seq<char>>) -> Seq<MenuEntryView> {
    match line {
        Some(text) => seq![label_entry(text)],
        None => Seq::<MenuEntryView>::empty(),
    }
}

/// The text of the entry that turns the percentages in the title on and off.
pub open spec fn toggle_text(state: AppStateView) -> Seq<char> {
    if state.show_percentages {
        "\u{2713} Show Percentages in Menu Bar"@
    } else {
        "  Show Percentages in Menu Bar"@
    }
}

/// The entries after the lines: a separator and the four commands.
pub open spec fn command_entries(state: AppStateView) -> Seq<MenuEntryView> {
    seq![
        label_entry(separator()),
        command_entry("charts"@, "Show Charts..."@),
        command_entry("refresh"@, "Refresh Now"@),
        command_entry("toggle_percentages"@, toggle_text(state)),
        command_entry("quit"@, "Quit"@),
    ]
}

/// The whole menu, given the lines of the buckets and of the last reading:
/// the last failure if there was one, the session, the week, the single
/// model if it has a line, the time of the last reading if it has one, and
/// the commands.
pub open spec fn menu_of(
    state: AppStateView,
    session: Seq<char>,
    weekly: Seq<char>,
    sonnet: Option<Seq<char>>,
    updated: Option<Seq<char>>,
) -> Seq<MenuEntryView> {
    failure_entries(state) + seq![label_entry(session), label_entry(weekly)] + optional_entry(
        sonnet,
    ) + optional_entry(
        match updated {
            Some(text) => Some("Updated: "@ + text),
            None => None,
        },
    ) + command_entries(state)
}

/// The time of the last reading as the menu shows it, if the snapshot has a stamp.
pub open spec fn shown_stamp(state: AppStateView, today: CivilDate) -> Option<Seq<char>> {
    match state.usage.timestamp {
        Some(stamp) => Some(updated_text(stamp, today)),
        None => None,
    }
}

/// Whether an item has no reset phrase, or one that means nothing from
/// whatever day it is seen.
pub open spec fn unresolvable(item: UsageItemView) -> bool {
    match item.resets {
        Some(phrase) => means_nothing(phrase),
        None => true,
    }
}

/// Whether an item has no reset phrase, or one that means nothing seen from the day `today`.
pub open spec fn unresolvable_on(item: UsageItemView, today: CivilDate) -> bool {
    match item.resets {
        Some(phrase) => means_nothing_on(phrase, today),
        None => true,
    }
}

/// Whether the entries are the menu for the store on the day `today`, with
/// spans until the resets that are missing wherever a bucket has no phrase
/// that means something on that day.
pub open spec fn is_menu_on(entries: Seq<MenuEntryView>, state: AppStateView, today: CivilDate) -> bool {
    exists|session: Option<TimeSpan>, weekly: Option<TimeSpan>, sonnet: Option<TimeSpan>|
        {
            &&& #[trigger] menu_with_spans(state, today, session, weekly, sonnet) == entries
            &&& unresolvable_on(state.usage.session, today) ==> session is None
            &&& unresolvable_on(state.usage.weekly_all, today) ==> weekly is None
            &&& unresolvable_on(state.usage.weekly_sonnet, today) ==> sonnet is None
        }
}

/// The number of entries of the menu for a store: two lines with a failure,
/// the lines of the session and the week, one for the single model if its
/// percentage is known, one for the time stamp if there is one, and the
/// separator with the four commands.
pub open spec fn menu_length(state: AppStateView) -> int {
    (if state.last_error is Some { 2int } else { 0 }) + 2
        + (if state.usage.weekly_sonnet.percent is Some { 1int } else { 0 })
        + (if state.usage.timestamp is Some { 1int } else { 0 }) + 5
}

/// The line for the single model, which is there only if its percentage is known.
pub open spec fn sonnet_text(item: UsageItemView, remaining: Option<TimeSpan>) -> Option<Seq<char>> {
    if item.percent is Some {
        Some(bucket_text("Weekly (Sonnet)"@, item, WEEK_HOURS as int, false, remaining))
    } else {
        None
    }
}

/// The menu for the store on the day `today`, given the spans until the
/// resets of the three buckets, each missing where its phrase could not be
/// resolved.
pub open spec fn menu_with_spans(
    state: AppStateView,
    today: CivilDate,
    session: Option<TimeSpan>,
    weekly: Option<TimeSpan>,
    sonnet: Option<TimeSpan>,
) -> Seq<MenuEntryView> {
    menu_of(
        state,
        bucket_text("Session"@, state.usage.session, SESSION_HOURS as int, true, session),
        bucket_text("Weekly (all)"@, state.usage.weekly_all, WEEK_HOURS as int, true, weekly),
        sonnet_text(state.usage.weekly_sonnet, sonnet),
        shown_stamp(state, today),
    )
}

/// The views of the entries of a menu.
pub open spec fn entries_view(entries: Seq<MenuEntry>) -> Seq<MenuEntryView> {
    Seq::new(entries.len(), |i: int| entries[i]@)
}

/// The command that an id of the menu stands for.
pub fn command_of(id: &str) -> (r: Option<MenuCommand>)
    ensures
        r == command_named(id@),
{
    let chars = chars_of(id);
    if same_chars(&chars, &chars_of("quit")) {
        Some(MenuCommand::Quit)
    } else if same_chars(&chars, &chars_of("toggle_percentages")) {
        Some(MenuCommand::TogglePercentages)
    } else if same_chars(&chars, &chars_of("charts")) {
        Some(MenuCommand::ShowCharts)
    } else if same_chars(&chars, &chars_of("refresh")) {
        Some(MenuCommand::Refresh)
    } else {
        None
    }
}

/// Writes the line for one bucket, given the span until its reset if the
/// phrase could be resolved.
pub fn bucket_line(
    label: &str,
    item: &UsageItem,
    period_hours: i32,
    with_remaining: bool,
    remaining: Option<TimeSpan>,
) -> (text: String)
    ensures
        text@ == bucket_text(label@, item@, period_hours as int, with_remaining, remaining),
{
    let percent: i32 = match item.percent {
        Some(p) => p,
        None => 0,
    };
    let severity = classify(percent, remaining, period_hours);
    let mut text = String::from_str(severity.glyph());
    text.append(" ");
    text.append(label);
    text.append(": ");
    push_int(&mut text, percent as i128);
    text.append("%");
    let ghost head = text@;
    assert(head =~= glyph_of(severity) + " "@ + label@ + ": "@ + int_text(percent as int) + "%"@);
    if with_remaining {
        let shown = match &item.resets {
            Some(phrase) => render_remaining(phrase.as_str(), remaining),
            None => render_remaining("--", remaining),
        };
        text.append(" | ");
        text.append(shown.as_str());
        assert(text@ =~= head + " | "@ + shown@);
    }
    text
}

/// The span until the reset of an item, seen from the reading `now`; none
/// where the item has no phrase, or none that could be resolved.
fn span_until_reset(item: &UsageItem, now: &Now) -> (r: Option<TimeSpan>)
    ensures
        unresolvable_on(item@, now.date) ==> r is None,
{
    match &item.resets {
        Some(phrase) => match parse_reset_time_at(phrase.as_str(), now) {
            Some(point) => Some(TimeSpan::until(&point, now)),
            None => None,
        },
        None => None,
    }
}

fn label_of(text: String) -> (r: MenuEntry)
    ensures
        r@ == label_entry(text@),
{
    MenuEntry { id: None, text, enabled: false }
}

fn command(id: &str, text: &str) -> (r: MenuEntry)
    ensures
        r@ == command_entry(id@, text@),
{
    MenuEntry { id: Some(String::from_str(id)), text: String::from_str(text), enabled: true }
}

/// Puts the menu together from the store and the lines to be shown.
pub fn assemble_menu(
    state: &AppState,
    session: String,
    weekly: String,
    sonnet: Option<String>,
    updated: Option<String>,
) -> (entries: Vec<MenuEntry>)
    ensures
        entries_view(entries@) == menu_of(
            state@,
            session@,
            weekly@,
            text_view(sonnet),
            text_view(updated),
        ),
{
    let mut entries: Vec<MenuEntry> = Vec::new();
    match &state.last_error {
        Some(message) => {
            let mut text = String::from_str("\u{26A0}\u{FE0F} ");
            text.append(message.as_str());
            entries.push(label_of(text));
            entries.push(
                label_of(
                    String::from_str(
                        "\u{2500}\u{2500}\u{2500}\u{2500}\u{2500}\u{2500}\u{2500}\u{2500}\u{2500}\u{2500}\u{2500}\u{2500}\u{2500}",
                    ),
                ),
            );
        },
        None => {},
    }
    assert(entries_view(entries@) =~= failure_entries(state@));
    entries.push(label_of(session));
    entries.push(label_of(weekly));
    assert(entries_view(entries@) =~= failure_entries(state@) + seq![
        label_entry(session@),
        label_entry(weekly@),
    ]);
    let ghost lines = entries_view(entries@);
    match sonnet {
        Some(text) => {
            entries.push(label_of(text));
        },
        None => {},
    }
    assert(entries_view(entries@) =~= lines + optional_entry(text_view(sonnet)));
    let ghost lines = entries_view(entries@);
    let ghost updated_line: Option<Seq<char>> = match text_view(updated) {
        Some(text) => Some("Updated: "@ + text),
        None => None,
    };
    match updated {
        Some(shown) => {
            let mut text = String::from_str("Updated: ");
            text.append(shown.as_str());
            entries.push(label_of(text));
        },
        None => {},
    }
    assert(entries_view(entries@) =~= lines + optional_entry(updated_line));
    let ghost lines = entries_view(entries@);
    entries.push(
        label_of(
            String::from_str(
                "\u{2500}\u{2500}\u{2500}\u{2500}\u{2500}\u{2500}\u{2500}\u{2500}\u{2500}\u{2500}\u{2500}\u{2500}\u{2500}",
            ),
        ),
    );
    entries.push(command("charts", "Show Charts..."));
    entries.push(command("refresh", "Refresh Now"));
    if state.show_percentages {
        entries.push(command("toggle_percentages", "\u{2713} Show Percentages in Menu Bar"));
    } else {
        entries.push(command("toggle_percentages", "  Show Percentages in Menu Bar"));
    }
    entries.push(command("quit", "Quit"));
    assert(entries_view(entries@) =~= lines + command_entries(state@));
    entries
}

/// For given lines, the menu has the length that the store asks for.
pub proof fn lemma_menu_length(
    state: AppStateView,
    today: CivilDate,
    session: Option<TimeSpan>,
    weekly: Option<TimeSpan>,
    sonnet: Option<TimeSpan>,
)
    ensures
        menu_with_spans(state, today, session, weekly, sonnet).len() == menu_length(state),
{
}

/// An item that is unresolvable from whatever day it is seen is so seen from any one day.
pub proof fn lemma_unresolvable(item: UsageItemView, today: CivilDate)
    requires
        unresolvable(item),
    ensures
        unresolvable_on(item, today),
{
    match item.resets {
        Some(phrase) => {
            lemma_means_nothing(phrase, today);
        },
        None => {},
    }
}

/// The menu for the store, seen from the reading `now`.
///
/// It is `menu_with_spans` of the spans until the resets of the three
/// buckets: the last failure if there was one, the session, the week, the
/// single model if its percentage is known, the time of the last reading if
/// there is a stamp, the separator and the four commands. A bucket without a
/// phrase that means something on the day of the reading has no span; for the
/// others the span is measured to the instant that the machine's time zone
/// gives for the phrase.
pub fn build_menu_at(state: &AppState, now: &Now) -> (entries: Vec<MenuEntry>)
    ensures
        is_menu_on(entries_view(entries@), state@, now.date),
        entries@.len() == menu_length(state@),
{
    let usage = &state.usage;
    let session_span = span_until_reset(&usage.session, now);
    let weekly_span = span_until_reset(&usage.weekly_all, now);
    let sonnet_span = span_until_reset(&usage.weekly_sonnet, now);
    let session = bucket_line("Session", &usage.session, SESSION_HOURS, true, session_span);
    let weekly = bucket_line("Weekly (all)", &usage.weekly_all, WEEK_HOURS, true, weekly_span);
    let sonnet = if usage.weekly_sonnet.percent.is_some() {
        Some(bucket_line("Weekly (Sonnet)", &usage.weekly_sonnet, WEEK_HOURS, false, sonnet_span))
    } else {
        None
    };
    let updated = match &usage.timestamp {
        Some(stamp) => Some(updated_label(stamp.as_str(), &now.date)),
        None => None,
    };
    let entries = assemble_menu(state, session, weekly, sonnet, updated);
    proof {
        assert(menu_with_spans(state@, now.date, session_span, weekly_span, sonnet_span)
            == entries_view(entries@));
        lemma_menu_length(state@, now.date, session_span, weekly_span, sonnet_span);
    }
    entries
}

/// The menu for the store, seen from the machine's clock.
///
/// What the clock reads is not known beforehand. Whatever it reads, the menu
/// is that of some day: its lines stand in the number and order of
/// `menu_with_spans`, and it ends with the separator and the four commands.
/// Where the store holds no time stamp and no reset phrase that means
/// something, nothing in the menu depends on the clock.
pub fn build_menu(state: &AppState) -> (entries: Vec<MenuEntry>)
    ensures
        exists|today: CivilDate| is_menu_on(entries_view(entries@), state@, today),
        entries@.len() == menu_length(state@),
        entries_view(entries@).subrange(entries@.len() - 5, entries@.len() as int)
            == command_entries(state@),
        forall|today: CivilDate|
            state@.usage.timestamp is None && unresolvable(state@.usage.session) && unresolvable(
                state@.usage.weekly_all,
            ) && unresolvable(state@.usage.weekly_sonnet) ==> entries_view(entries@)
                == #[trigger] menu_with_spans(state@, today, None, None, None),
{
    let now = local_now();
    let entries = build_menu_at(state, &now);
    proof {
        let view = entries_view(entries@);
        assert(is_menu_on(view, state@, now.date));
        assert(view.subrange(view.len() - 5, view.len() as int) =~= command_entries(state@));
        if unresolvable(state@.usage.session) {
            lemma_unresolvable(state@.usage.session, now.date);
        }
        if unresolvable(state@.usage.weekly_all) {
            lemma_unresolvable(state@.usage.weekly_all, now.date);
        }
        if unresolvable(state@.usage.weekly_sonnet) {
            lemma_unresolvable(state@.usage.weekly_sonnet, now.date);
        }
    }
    entries
}

} // verus!
