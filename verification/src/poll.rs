//! The task poller's state machine. The remote fetch and the wait are the
//! driver's work; this module decides, from each fresh snapshot, whether the
//! task is terminal and what the driver must do next.

use vstd::prelude::*;

use crate::model::Task;

verus! {

/// The fixed interval, in milliseconds, between two polls of a running task.
pub const POLL_INTERVAL_MS: u64 = 500;

/// The poller's states: the task was just submitted, it is still running or
/// pending (not yet stopped), or it has reached the terminal stopped state.
#[derive(Debug, PartialEq, Eq, Structural, Clone, Copy)]
pub enum PollState {
    Submitted,
    RunningOrPending,
    Stopped,
}

/// What the driver must do after a poll: wait `millis` milliseconds and fetch
/// a fresh snapshot, or finish — the task is terminal and polling ends.
#[derive(Debug, PartialEq, Eq, Structural, Clone, Copy)]
pub enum PollAction {
    Wait { millis: u64 },
    Finish,
}

/// A task is terminal exactly when its stopped-at time is set.
pub open spec fn spec_is_stopped(t: Task) -> bool {
    t.stopped_at is Some
}

/// Whether a polled snapshot shows a terminal task.
pub fn is_stopped(t: &Task) -> (b: bool)
    ensures
        b == spec_is_stopped(*t),
{
    match t.stopped_at {
        Option::Some(_) => true,
        Option::None => false,
    }
}

/// One step of the poller's state machine, applied to each freshly fetched
/// snapshot. A terminal snapshot moves to `Stopped` and finishes at once,
/// with no wait — also when it is the very first snapshot; a non-terminal
/// one stays non-terminal and waits the fixed interval before the next poll.
pub fn poll_transition(state: PollState, snapshot: &Task) -> (r: (PollState, PollAction))
    requires
        !(state is Stopped),
    ensures
        spec_is_stopped(*snapshot) ==> r == (PollState::Stopped, PollAction::Finish),
        !spec_is_stopped(*snapshot) ==> r == (
            PollState::RunningOrPending,
            PollAction::Wait { millis: POLL_INTERVAL_MS },
        ),
{
    if is_stopped(snapshot) {
        (PollState::Stopped, PollAction::Finish)
    } else {
        (PollState::RunningOrPending, PollAction::Wait { millis: POLL_INTERVAL_MS })
    }
}

} // verus!
