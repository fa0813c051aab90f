//! The sync loop's state machine. The loop itself performs blocking I/O and
//! lives outside the library; it feeds each step's outcome back in here and
//! performs whatever action the current state asks for.

use vstd::prelude::*;

verus! {

/// Where the loop stands.
#[derive(Clone, Copy, PartialEq, Eq, Structural, Debug)]
pub enum SyncState {
    Connecting,
    Polling,
    Waiting,
    Backoff,
}

/// What the last action's outcome was.
#[derive(Clone, Copy, PartialEq, Eq, Structural, Debug)]
pub enum SyncEvent {
    Connected,
    ConnectFailed,
    PolledIdle,
    PolledPushed,
    PollFailed,
    Changed,
    WaitFailed,
    Slept,
}

/// The blocking action each state asks for.
#[derive(Clone, Copy, PartialEq, Eq, Structural, Debug)]
pub enum SyncAction {
    Connect,
    Poll,
    Wait,
    Sleep,
}

/// The transition relation: connect, then poll and wait in turn; every
/// failure, and nothing else, leads to the backoff sleep, and the backoff
/// sleep always leads back to connecting, so retry never ends.
pub open spec fn spec_next(s: SyncState, e: SyncEvent) -> SyncState {
    match s {
        SyncState::Connecting => match e {
            SyncEvent::Connected => SyncState::Polling,
            _ => SyncState::Backoff,
        },
        SyncState::Polling => match e {
            SyncEvent::PolledIdle => SyncState::Waiting,
            SyncEvent::PolledPushed => SyncState::Waiting,
            _ => SyncState::Backoff,
        },
        SyncState::Waiting => match e {
            SyncEvent::Changed => SyncState::Polling,
            _ => SyncState::Backoff,
        },
        SyncState::Backoff => match e {
            SyncEvent::Slept => SyncState::Connecting,
            _ => SyncState::Backoff,
        },
    }
}

/// The action owed in each state.
pub open spec fn spec_action(s: SyncState) -> SyncAction {
    match s {
        SyncState::Connecting => SyncAction::Connect,
        SyncState::Polling => SyncAction::Poll,
        SyncState::Waiting => SyncAction::Wait,
        SyncState::Backoff => SyncAction::Sleep,
    }
}

/// Advances the loop one step.
pub fn sync_step(s: SyncState, e: SyncEvent) -> (r: SyncState)
    ensures
        r == spec_next(s, e),
{
    match s {
        SyncState::Connecting => match e {
            SyncEvent::Connected => SyncState::Polling,
            _ => SyncState::Backoff,
        },
        SyncState::Polling => match e {
            SyncEvent::PolledIdle => SyncState::Waiting,
            SyncEvent::PolledPushed => SyncState::Waiting,
            _ => SyncState::Backoff,
        },
        SyncState::Waiting => match e {
            SyncEvent::Changed => SyncState::Polling,
            _ => SyncState::Backoff,
        },
        SyncState::Backoff => match e {
            SyncEvent::Slept => SyncState::Connecting,
            _ => SyncState::Backoff,
        },
    }
}

/// Says which blocking action to perform next.
pub fn action_for(s: SyncState) -> (a: SyncAction)
    ensures
        a == spec_action(s),
{
    match s {
        SyncState::Connecting => SyncAction::Connect,
        SyncState::Polling => SyncAction::Poll,
        SyncState::Waiting => SyncAction::Wait,
        SyncState::Backoff => SyncAction::Sleep,
    }
}

/// No failure is fatal: whatever happens, the loop either works on
/// (polling or waiting), reconnects, or backs off to retry — and from the
/// backoff sleep it always returns to connecting.
pub proof fn lemma_retry_forever(s: SyncState, e: SyncEvent)
    ensures
        spec_next(SyncState::Backoff, SyncEvent::Slept) == SyncState::Connecting,
        spec_next(s, e) == SyncState::Backoff
            ==> spec_next(spec_next(s, e), SyncEvent::Slept) == SyncState::Connecting,
{
}

} // verus!
