//! The poll schedule: when to fetch, how long to wait after a failure, and
//! what each result does to the store.

use vstd::prelude::*;
use crate::usage::{updated, AppState, AppStateView, UsageData, UsageDataView};

verus! {

/// How long to wait between polls: `base_interval` seconds, stretched by the
/// number of failures in a row, up to `cap` times.
#[derive(Clone, Copy, Debug, PartialEq, Eq, Structural)]
pub struct Backoff {
    pub base_interval: u32,
    pub cap: u32,
}

/// Ten minutes between polls.
pub const BASE_INTERVAL_SECS: u32 = 600;

/// At most three times the base interval.
pub const BACKOFF_CAP: u32 = 3;

/// Where the scheduler stands.
#[derive(Clone, Copy, Debug, PartialEq, Eq, Structural)]
pub enum Phase {
    /// Nothing has been polled yet.
    Starting,
    /// Between two polls, for so many seconds.
    Waiting { secs: u64 },
    /// A fetch is under way.
    Polling,
}

/// What happened.
#[derive(Clone, Debug, PartialEq, Eq)]
pub enum Event {
    /// The scheduler was started, or its wait is over.
    Wake,
    /// The fetch that the scheduler asked for has returned.
    Fetched(UsageData),
    /// A fetch asked for out of turn has returned.
    Refreshed(UsageData),
}

/// What is to be done next.
#[derive(Clone, Copy, Debug, PartialEq, Eq, Structural)]
pub enum Action {
    /// Call the fetcher, once, and hand back what it returns.
    Fetch,
    /// Show the store as it now is; before that, if `persist` is set, hand
    /// its snapshot to the cache and to the history. After that, if `wait`
    /// holds a number, sleep so many seconds and wake the scheduler.
    Announce { persist: bool, wait: Option<u64> },
    /// Nothing.
    Idle,
}

pub enum EventView {
    Wake,
    Fetched(UsageDataView),
    Refreshed(UsageDataView),
}

impl View for Event {
    type V = EventView;

    open spec fn view(&self) -> EventView {
        match self {
            Event::Wake => EventView::Wake,
            Event::Fetched(data) => EventView::Fetched(data@),
            Event::Refreshed(data) => EventView::Refreshed(data@),
        }
    }
}

/// The smaller of two numbers.
pub open spec fn least(a: int, b: int) -> int {
    if a <= b {
        a
    } else {
        b
    }
}

/// The seconds to wait after a cycle: the base interval after a success,
/// and after failures the base interval times their number, which counts
/// for no more than the cap.
pub open spec fn wait_after(policy: Backoff, consecutive_errors: int) -> int {
    if consecutive_errors > 0 {
        policy.base_interval * least(consecutive_errors, policy.cap as int)
    } else {
        policy.base_interval as int
    }
}

/// One step of the scheduler: the phase, the store and the action that
/// follow from a phase, a store and an event.
///
/// Waking starts a poll, at the start as after a wait. The result of that
/// poll goes through the update rule of the store; the wait that follows is
/// measured by the failures then counted. A result asked for out of turn
/// goes through the same rule and leaves the phase as it is.
pub open spec fn step_of(phase: Phase, state: AppStateView, event: EventView, policy: Backoff) -> (
    Phase,
    AppStateView,
    Action,
) {
    match event {
        EventView::Wake => match phase {
            Phase::Polling => (phase, state, Action::Idle),
            _ => (Phase::Polling, state, Action::Fetch),
        },
        EventView::Fetched(data) => match phase {
            Phase::Polling => {
                let next = updated(state, data);
                let secs = wait_after(policy, next.consecutive_errors as int) as u64;
                (
                    Phase::Waiting { secs },
                    next,
                    Action::Announce { persist: data.error is None, wait: Some(secs) },
                )
            },
            _ => (phase, state, Action::Idle),
        },
        EventView::Refreshed(data) => (
            phase,
            updated(state, data),
            Action::Announce { persist: data.error is None, wait: None },
        ),
    }
}

/// Whether an event makes the store count one more failure: a failed result
/// of the poll that is under way, or a failed result asked for out of turn.
pub open spec fn counts_failure(phase: Phase, event: EventView) -> bool {
    match event {
        EventView::Wake => false,
        EventView::Fetched(data) => phase is Polling && data.error is Some,
        EventView::Refreshed(data) => data.error is Some,
    }
}

/// Whether an event makes the store count one more failure.
pub fn is_counted_failure(phase: &Phase, event: &Event) -> (r: bool)
    ensures
        r == counts_failure(*phase, event@),
{
    match event {
        Event::Wake => false,
        Event::Fetched(data) => match phase {
            Phase::Polling => data.error.is_some(),
            _ => false,
        },
        Event::Refreshed(data) => data.error.is_some(),
    }
}

impl Backoff {
    /// Ten minutes, stretched to at most thirty.
    pub fn standard() -> (r: Backoff)
        ensures
            r == (Backoff { base_interval: BASE_INTERVAL_SECS, cap: BACKOFF_CAP }),
    {
        Backoff { base_interval: BASE_INTERVAL_SECS, cap: BACKOFF_CAP }
    }

    /// The seconds to wait after a cycle that left `consecutive_errors` failures in a row.
    pub fn next_wait(&self, consecutive_errors: u32) -> (secs: u64)
        ensures
            secs == wait_after(*self, consecutive_errors as int),
    {
        if consecutive_errors > 0 {
            let factor: u32 = if consecutive_errors <= self.cap {
                consecutive_errors
            } else {
                self.cap
            };
            assert(self.base_interval * factor <= 0xffff_ffff * 0xffff_ffff) by (nonlinear_arith)
                requires
                    self.base_interval <= 0xffff_ffff,
                    factor <= 0xffff_ffff,
            ;
            self.base_interval as u64 * factor as u64
        } else {
            self.base_interval as u64
        }
    }
}

impl Default for Backoff {
    fn default() -> (r: Backoff)
        ensures
            r == (Backoff { base_interval: BASE_INTERVAL_SECS, cap: BACKOFF_CAP }),
    {
        Backoff::standard()
    }
}

/// Takes the scheduler one step on: changes the phase and the store as the
/// event asks, and says what is to be done next.
pub fn step(phase: &mut Phase, state: &mut AppState, event: Event, policy: &Backoff) -> (action: Action)
    requires
        counts_failure(*old(phase), event@) ==> old(state).consecutive_errors < u32::MAX,
    ensures
        (*final(phase), final(state)@, action) == step_of(
            *old(phase),
            old(state)@,
            event@,
            *policy,
        ),
{
    match event {
        Event::Wake => match phase {
            Phase::Polling => Action::Idle,
            _ => {
                *phase = Phase::Polling;
                Action::Fetch
            },
        },
        Event::Fetched(data) => match phase {
            Phase::Polling => {
                let persist = state.apply(data);
                let secs = policy.next_wait(state.consecutive_errors);
                *phase = Phase::Waiting { secs };
                Action::Announce { persist, wait: Some(secs) }
            },
            _ => Action::Idle,
        },
        Event::Refreshed(data) => {
            let persist = state.apply(data);
            Action::Announce { persist, wait: None }
        },
    }
}

/// With ten minutes and a cap of three, the waits after one, two, three and
/// more failures in a row are 600, 1200, 1800 and 1800 seconds for ever
/// after; without a failure the wait is 600 seconds.
pub proof fn lemma_standard_backoff(consecutive_errors: nat)
    ensures
        ({
            let policy = Backoff { base_interval: BASE_INTERVAL_SECS, cap: BACKOFF_CAP };
            let wait = wait_after(policy, consecutive_errors as int);
            &&& consecutive_errors == 0 ==> wait == 600
            &&& consecutive_errors == 1 ==> wait == 600
            &&& consecutive_errors == 2 ==> wait == 1200
            &&& consecutive_errors >= 3 ==> wait == 1800
        }),
{
}

/// The wait never falls below the base interval while the cap is at least
/// one, never exceeds the base interval times the cap, and never shrinks
/// when one more failure is counted.
pub proof fn lemma_backoff_bounds(policy: Backoff, consecutive_errors: nat)
    requires
        policy.cap >= 1,
    ensures
        policy.base_interval <= wait_after(policy, consecutive_errors as int)
            <= policy.base_interval * policy.cap,
        wait_after(policy, consecutive_errors as int) <= wait_after(
            policy,
            consecutive_errors as int + 1,
        ),
{
    let n = least(consecutive_errors as int, policy.cap as int);
    let m = least(consecutive_errors as int + 1, policy.cap as int);
    let b = policy.base_interval as int;
    let c = policy.cap as int;
    assert(b * 1 <= b * m && b * m <= b * c) by (nonlinear_arith)
        requires
            1 <= m <= c,
            b >= 0,
    ;
    if consecutive_errors > 0 {
        assert(b * 1 <= b * n && b * n <= b * c && b * n <= b * m) by (nonlinear_arith)
            requires
                1 <= n <= m <= c,
                b >= 0,
        ;
    }
}

} // verus!
