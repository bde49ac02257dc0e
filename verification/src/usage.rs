//! The usage store: the latest snapshot, the last failure, and the rule by
//! which the result of a poll changes them.

use vstd::prelude::*;
use vstd::string::*;
use crate::text::{chars_of, contains, find_in};

verus! {

/// The last known reading of one quota bucket. A missing percentage means
/// that it is not known, not that it is zero.
#[derive(Clone, Debug, PartialEq, Eq)]
pub struct UsageItem {
    pub percent: Option<i32>,
    pub resets: Option<String>,
}

/// One reading of all buckets, or the failure to take one: with `error` set,
/// the three items carry nothing.
#[derive(Clone, Debug, PartialEq, Eq)]
pub struct UsageData {
    pub timestamp: Option<String>,
    pub session: UsageItem,
    pub weekly_all: UsageItem,
    pub weekly_sonnet: UsageItem,
    pub error: Option<String>,
}

/// What the store holds.
#[derive(Clone, Debug, PartialEq, Eq)]
pub struct AppState {
    pub usage: UsageData,
    pub last_error: Option<String>,
    pub has_network: bool,
    pub consecutive_errors: u32,
    pub show_percentages: bool,
}

pub struct UsageItemView {
    pub percent: Option<int>,
    pub resets: Option<Seq<char>>,
}

pub struct UsageDataView {
    pub timestamp: Option<Seq<char>>,
    pub session: UsageItemView,
    pub weekly_all: UsageItemView,
    pub weekly_sonnet: UsageItemView,
    pub error: Option<Seq<char>>,
}

pub struct AppStateView {
    pub usage: UsageDataView,
    pub last_error: Option<Seq<char>>,
    pub has_network: bool,
    pub consecutive_errors: nat,
    pub show_percentages: bool,
}

impl UsageItemView {
    /// A percentage, where there is one, lies between 0 and 100.
    pub open spec fn in_range(self) -> bool {
        self.percent matches Some(p) ==> 0 <= p <= 100
    }
}

impl UsageDataView {
    /// Each of the three percentages, where there is one, lies between 0 and 100.
    pub open spec fn in_range(self) -> bool {
        self.session.in_range() && self.weekly_all.in_range() && self.weekly_sonnet.in_range()
    }
}

/// The characters of a text that may be missing.
pub open spec fn text_view(text: Option<String>) -> Option<Seq<char>> {
    match text {
        Some(s) => Some(s@),
        None => None,
    }
}

impl View for UsageItem {
    type V = UsageItemView;

    open spec fn view(&self) -> UsageItemView {
        UsageItemView {
            percent: match self.percent {
                Some(p) => Some(p as int),
                None => None,
            },
            resets: text_view(self.resets),
        }
    }
}

impl View for UsageData {
    type V = UsageDataView;

    open spec fn view(&self) -> UsageDataView {
        UsageDataView {
            timestamp: text_view(self.timestamp),
            session: self.session@,
            weekly_all: self.weekly_all@,
            weekly_sonnet: self.weekly_sonnet@,
            error: text_view(self.error),
        }
    }
}

impl View for AppState {
    type V = AppStateView;

    open spec fn view(&self) -> AppStateView {
        AppStateView {
            usage: self.usage@,
            last_error: text_view(self.last_error),
            has_network: self.has_network,
            consecutive_errors: self.consecutive_errors as nat,
            show_percentages: self.show_percentages,
        }
    }
}

/// An item that carries nothing.
pub open spec fn empty_item() -> UsageItemView {
    UsageItemView { percent: None, resets: None }
}

/// A snapshot that carries nothing.
pub open spec fn empty_usage() -> UsageDataView {
    UsageDataView {
        timestamp: None,
        session: empty_item(),
        weekly_all: empty_item(),
        weekly_sonnet: empty_item(),
        error: None,
    }
}

/// The snapshot that reports a failure: the message, and nothing else.
pub open spec fn failed_usage(message: Seq<char>) -> UsageDataView {
    UsageDataView {
        timestamp: None,
        session: empty_item(),
        weekly_all: empty_item(),
        weekly_sonnet: empty_item(),
        error: Some(message),
    }
}

/// The store before the first poll: what was kept from the last run, if
/// anything, no failure, and the network taken to be there. Percentages are
/// shown unless the settings say otherwise.
pub open spec fn initial_state(cached: Option<UsageDataView>, show_percentages: Option<bool>) -> AppStateView {
    AppStateView {
        usage: match cached {
            Some(usage) => usage,
            None => empty_usage(),
        },
        last_error: None,
        has_network: true,
        consecutive_errors: 0,
        show_percentages: match show_percentages {
            Some(show) => show,
            None => true,
        },
    }
}

/// Whether a failure message says that the network could not be reached.
pub open spec fn signals_no_network(message: Seq<char>) -> bool {
    contains(message, "No network"@)
}

/// The store after the result of one poll.
///
/// A result without an error replaces the snapshot, clears the last
/// failure, sets the failure count to zero and marks the network as there.
/// A result with an error leaves the snapshot as it was, records the
/// message, counts one more failure, and marks the network as gone only if
/// the message says so.
pub open spec fn updated(state: AppStateView, data: UsageDataView) -> AppStateView {
    match data.error {
        None => AppStateView {
            usage: data,
            last_error: None,
            has_network: true,
            consecutive_errors: 0,
            show_percentages: state.show_percentages,
        },
        Some(message) => AppStateView {
            usage: state.usage,
            last_error: Some(message),
            has_network: if signals_no_network(message) {
                false
            } else {
                state.has_network
            },
            consecutive_errors: state.consecutive_errors + 1,
            show_percentages: state.show_percentages,
        },
    }
}

impl UsageItem {
    pub fn empty() -> (r: UsageItem)
        ensures
            r@ == empty_item(),
            r@.in_range(),
    {
        UsageItem { percent: None, resets: None }
    }

    /// Whether the percentage, if there is one, lies between 0 and 100.
    pub fn is_in_range(&self) -> (r: bool)
        ensures
            r == self@.in_range(),
    {
        match self.percent {
            Some(p) => 0 <= p && p <= 100,
            None => true,
        }
    }
}

impl UsageData {
    pub fn empty() -> (r: UsageData)
        ensures
            r@ == empty_usage(),
    {
        UsageData {
            timestamp: None,
            session: UsageItem::empty(),
            weekly_all: UsageItem::empty(),
            weekly_sonnet: UsageItem::empty(),
            error: None,
        }
    }

    /// Whether each of the three percentages, if there is one, lies between 0 and 100.
    pub fn is_in_range(&self) -> (r: bool)
        ensures
            r == self@.in_range(),
    {
        self.session.is_in_range() && self.weekly_all.is_in_range()
            && self.weekly_sonnet.is_in_range()
    }

    /// The snapshot that reports a failure.
    pub fn failed(message: String) -> (r: UsageData)
        ensures
            r@ == failed_usage(message@),
            r@.in_range(),
    {
        UsageData {
            timestamp: None,
            session: UsageItem::empty(),
            weekly_all: UsageItem::empty(),
            weekly_sonnet: UsageItem::empty(),
            error: Some(message),
        }
    }
}

impl Default for UsageItem {
    fn default() -> (r: UsageItem)
        ensures
            r@ == empty_item(),
    {
        UsageItem::empty()
    }
}

impl Default for UsageData {
    fn default() -> (r: UsageData)
        ensures
            r@ == empty_usage(),
    {
        UsageData::empty()
    }
}

/// Whether a failure message says that the network could not be reached.
pub fn is_network_failure(message: &str) -> (r: bool)
    ensures
        r == signals_no_network(message@),
{
    find_in(&chars_of(message), &chars_of("No network")).is_some()
}

impl AppState {
    /// The store before the first poll.
    pub fn new(cached: Option<UsageData>, show_percentages: Option<bool>) -> (r: AppState)
        ensures
            r@ == initial_state(
                match cached {
                    Some(usage) => Some(usage@),
                    None => None,
                },
                show_percentages,
            ),
    {
        AppState {
            usage: match cached {
                Some(usage) => usage,
                None => UsageData::empty(),
            },
            last_error: None,
            has_network: true,
            consecutive_errors: 0,
            show_percentages: match show_percentages {
                Some(show) => show,
                None => true,
            },
        }
    }

    /// Takes in the result of one poll; says whether it was a success.
    ///
    /// A failure never touches the snapshot that the store holds. Only a
    /// failure is counted, so only a failure needs room in the count.
    pub fn apply(&mut self, data: UsageData) -> (succeeded: bool)
        requires
            data@.error is Some ==> old(self).consecutive_errors < u32::MAX,
        ensures
            final(self)@ == updated(old(self)@, data@),
            succeeded == data@.error is None,
            !succeeded ==> final(self)@.usage == old(self)@.usage,
    {
        if data.error.is_none() {
            self.usage = data;
            self.last_error = None;
            self.consecutive_errors = 0;
            self.has_network = true;
            true
        } else {
            let network_gone = match &data.error {
                Some(message) => is_network_failure(message.as_str()),
                None => false,
            };
            self.last_error = data.error;
            self.consecutive_errors = self.consecutive_errors + 1;
            if network_gone {
                self.has_network = false;
            }
            false
        }
    }

    /// Turns the showing of percentages in the title on or off.
    pub fn toggle_percentages(&mut self)
        ensures
            final(self)@ == (AppStateView {
                show_percentages: !old(self)@.show_percentages,
                ..old(self)@
            }),
    {
        self.show_percentages = !self.show_percentages;
    }
}

/// Taking in the same successful result twice leaves the store as taking it in once does.
pub proof fn lemma_update_idempotent(state: AppStateView, data: UsageDataView)
    requires
        data.error is None,
    ensures
        updated(updated(state, data), data) == updated(state, data),
{
}

/// A failure changes nothing of the snapshot in the store, and nothing else
/// but the last failure, the failure count and the network mark.
pub proof fn lemma_failure_keeps_snapshot(state: AppStateView, data: UsageDataView)
    requires
        data.error is Some,
    ensures
        updated(state, data).usage == state.usage,
        updated(state, data).show_percentages == state.show_percentages,
        updated(state, data).last_error == data.error,
        updated(state, data).consecutive_errors == state.consecutive_errors + 1,
        updated(state, data).has_network ==> state.has_network,
{
}

/// A store whose percentages are in range stays so, whatever fails, and
/// whatever succeeds with percentages in range.
pub proof fn lemma_update_keeps_range(state: AppStateView, data: UsageDataView)
    requires
        state.usage.in_range(),
        data.error is None ==> data.in_range(),
    ensures
        updated(state, data).usage.in_range(),
{
}

/// A success puts the store into one state whatever went before, but for
/// the choice of showing percentages, which no result touches.
pub proof fn lemma_success_resets(state: AppStateView, data: UsageDataView)
    requires
        data.error is None,
    ensures
        updated(state, data).usage == data,
        updated(state, data).last_error is None,
        updated(state, data).consecutive_errors == 0,
        updated(state, data).has_network,
        updated(state, data).show_percentages == state.show_percentages,
{
}

} // verus!
