//! The expiry sweeper: a background task that sleeps for an interval,
//! sweeps both tiers, and sleeps again, for as long as the engine lives.
//!
//! The host runs the loop: it sleeps, reads the clock and the backing file,
//! and writes the document back. What to do next, and what a sweep removes,
//! is decided here.

use vstd::prelude::*;
use crate::cache::{Cache, CacheState};
use crate::entry::{CacheDocument, CacheEntry};
use crate::persist::{document_of, load_for_sweep, StoredFile};
use crate::store::without_expired;

verus! {

/// Where the sweeper stands.
#[derive(Debug, Clone, Copy, PartialEq, Eq, Structural)]
pub enum SweeperState {
    /// Not started yet.
    Idle,
    /// Waiting for the given number of seconds to pass.
    Sleeping(u64),
    /// Removing expired entries.
    Sweeping,
}

/// What has just happened to the sweeper.
#[derive(Debug, Clone, Copy, PartialEq, Eq, Structural)]
pub enum SweeperEvent {
    /// The engine was constructed.
    Started,
    /// The sleep came to its end.
    Woke,
    /// The sweep came to its end, whether it went well or was skipped.
    Swept,
}

/// What the host is to do next.
#[derive(Debug, Clone, Copy, PartialEq, Eq, Structural)]
pub enum SweeperAction {
    /// Sleep for the given number of seconds, then report `Woke`.
    Sleep(u64),
    /// Run one sweep cycle, then report `Swept`.
    Sweep,
    /// Nothing: the event does not belong to the state.
    Wait,
}

/// The state that follows an event. The sweeper starts once, then
/// alternates between sleeping and sweeping; each sleep lasts the interval
/// that is configured when the sleep begins. An event that does not belong
/// to the state leaves it as it is.
pub open spec fn next_state(state: SweeperState, event: SweeperEvent, interval: u64) -> SweeperState {
    match (state, event) {
        (SweeperState::Idle, SweeperEvent::Started) => SweeperState::Sleeping(interval),
        (SweeperState::Sleeping(_), SweeperEvent::Woke) => SweeperState::Sweeping,
        (SweeperState::Sweeping, SweeperEvent::Swept) => SweeperState::Sleeping(interval),
        _ => state,
    }
}

/// The action that an event calls for.
pub open spec fn action_for(state: SweeperState, event: SweeperEvent, interval: u64) -> SweeperAction {
    match (state, event) {
        (SweeperState::Idle, SweeperEvent::Started) => SweeperAction::Sleep(interval),
        (SweeperState::Sleeping(_), SweeperEvent::Woke) => SweeperAction::Sweep,
        (SweeperState::Sweeping, SweeperEvent::Swept) => SweeperAction::Sleep(interval),
        _ => SweeperAction::Wait,
    }
}

/// Takes the sweeper one step: the state that follows the event, and what
/// the host is to do.
pub fn step(state: SweeperState, event: SweeperEvent, interval: u64) -> (r: (
    SweeperState,
    SweeperAction,
))
    ensures
        r.0 == next_state(state, event, interval),
        r.1 == action_for(state, event, interval),
{
    match state {
        SweeperState::Idle => match event {
            SweeperEvent::Started => (SweeperState::Sleeping(interval), SweeperAction::Sleep(interval)),
            _ => (state, SweeperAction::Wait),
        },
        SweeperState::Sleeping(_) => match event {
            SweeperEvent::Woke => (SweeperState::Sweeping, SweeperAction::Sweep),
            _ => (state, SweeperAction::Wait),
        },
        SweeperState::Sweeping => match event {
            SweeperEvent::Swept => (SweeperState::Sleeping(interval), SweeperAction::Sleep(interval)),
            _ => (state, SweeperAction::Wait),
        },
    }
}

/// One sweep cycle at `now`. The memory tier loses its expired entries
/// whatever the file holds. Where the file could not be read the cycle ends
/// there. Otherwise the document loses its expired entries, and is handed
/// back for the host to persist exactly if it lost any.
pub fn run_cycle(cache: &mut Cache, file: StoredFile, now: u64) -> (persist: Option<CacheDocument>)
    ensures
        final(cache)@ == (CacheState {
            memory: without_expired(old(cache)@.memory, now),
            ..old(cache)@
        }),
        match persist {
            Some(document) => {
                &&& !(file is Unreadable)
                &&& document@ == without_expired(document_of(file), now)
                &&& document@ != document_of(file)
            },
            None => file is Unreadable || without_expired(document_of(file), now) == document_of(
                file,
            ),
        },
{
    match load_for_sweep(file) {
        Some(document) => {
            let mut document = document;
            if cache.sweep(&mut document, now) {
                Some(document)
            } else {
                None
            }
        },
        None => {
            cache.evict_expired(now);
            None
        },
    }
}

/// The sweeper has no final state: in every state some event takes it to
/// another one, and once started it never is idle again.
pub proof fn lemma_sweeper_never_stops(state: SweeperState, interval: u64)
    ensures
        exists|event: SweeperEvent| next_state(state, event, interval) != state,
        forall|event: SweeperEvent|
            state != SweeperState::Idle ==> #[trigger] next_state(state, event, interval)
                != SweeperState::Idle,
{
    match state {
        SweeperState::Idle => {
            assert(next_state(state, SweeperEvent::Started, interval) != state);
        },
        SweeperState::Sleeping(_) => {
            assert(next_state(state, SweeperEvent::Woke, interval) != state);
        },
        SweeperState::Sweeping => {
            assert(next_state(state, SweeperEvent::Swept, interval) != state);
        },
    }
}

/// One full round: a sweeper that sleeps, wakes and finishes its sweep is
/// sleeping again, for the interval that is configured by then.
pub proof fn lemma_sweeper_round(seconds: u64, interval: u64)
    ensures
        next_state(
            next_state(SweeperState::Sleeping(seconds), SweeperEvent::Woke, interval),
            SweeperEvent::Swept,
            interval,
        ) == SweeperState::Sleeping(interval),
        next_state(SweeperState::Idle, SweeperEvent::Started, interval) == SweeperState::Sleeping(
            interval,
        ),
{
}

} // verus!
