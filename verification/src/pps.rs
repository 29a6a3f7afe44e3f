//! The two-phase pulse-per-second time synchronization protocol.
//!
//! When the host cannot observe the hardware's PPS edge directly, device
//! times are aligned in two bounded phases: first the edge is caught by
//! polling the device's last-pulse time until it changes, then a single
//! command schedules the target time to take effect atomically at the
//! next pulse on every board. The boundary performs the polling and the
//! commit call; this module decides every step, so the protocol provably
//! commits exactly once, only after a caught edge, and gives up within
//! its poll budget instead of blocking forever.

use vstd::prelude::*;
use crate::error::UhdError;
use crate::time::TimeSpec;

verus! {

/// Where the protocol stands while an edge is being caught.
#[derive(Clone, Copy, Debug, PartialEq, Eq, Structural)]
pub enum PpsSyncState {
    /// Still polling: the last-pulse time first observed, and how many
    /// polls remain before the bound is reached.
    CatchingEdge { initial: TimeSpec, polls_left: u32 },
    /// The edge was caught and the commit command was issued; the target
    /// time latches at the next pulse.
    Committed,
    /// No edge appeared within the poll budget.
    TimedOut,
}

/// What the boundary must do after a protocol step.
#[derive(Clone, Copy, Debug, PartialEq, Eq, Structural)]
pub enum PpsSyncAction {
    /// Query the device's last-pulse time again.
    PollLastPps,
    /// Issue the single command that sets this time at the next pulse,
    /// synchronously across all boards.
    CommitAtNextPps { time: TimeSpec },
    /// Give up and surface a timeout to the caller.
    ReportTimeout { error: UhdError },
}

/// Begins edge capture from the first observed last-pulse time, with a
/// poll budget that bounds the capture phase to roughly one second.
pub fn pps_sync_begin(initial: TimeSpec, poll_budget: u32) -> (r: PpsSyncState)
    requires
        poll_budget >= 1,
    ensures
        r == (PpsSyncState::CatchingEdge { initial, polls_left: poll_budget }),
{
    PpsSyncState::CatchingEdge { initial, polls_left: poll_budget }
}

/// One step of edge capture, given a freshly observed last-pulse time.
/// The commit for `target` is demanded exactly when the observation
/// differs from the first one — the pulse edge has just occurred — and
/// the poll budget strictly decreases otherwise, so the boundary's
/// polling loop terminates within the bound.
pub fn pps_sync_step(state: PpsSyncState, observed: TimeSpec, target: TimeSpec) -> (r: (
    PpsSyncState,
    PpsSyncAction,
))
    requires
        state is CatchingEdge,
    ensures
        r.1 is CommitAtNextPps <==> observed != state->CatchingEdge_initial,
        r.1 matches PpsSyncAction::CommitAtNextPps { time } ==> time == target && r.0
            is Committed,
        observed == state->CatchingEdge_initial && state->CatchingEdge_polls_left > 1 ==> r == (
            (
                PpsSyncState::CatchingEdge {
                    initial: state->CatchingEdge_initial,
                    polls_left: (state->CatchingEdge_polls_left - 1) as u32,
                },
                PpsSyncAction::PollLastPps,
            )
        ),
        observed == state->CatchingEdge_initial && state->CatchingEdge_polls_left <= 1 ==> r == (
            (
                PpsSyncState::TimedOut,
                PpsSyncAction::ReportTimeout { error: UhdError::Timeout },
            )
        ),
        r.0 matches PpsSyncState::CatchingEdge { initial, polls_left } ==> initial == state
            ->CatchingEdge_initial && polls_left < state->CatchingEdge_polls_left,
{
    match state {
        PpsSyncState::CatchingEdge { initial, polls_left } => {
            if observed != initial {
                (
                    PpsSyncState::Committed,
                    PpsSyncAction::CommitAtNextPps { time: target },
                )
            } else if polls_left > 1 {
                (
                    PpsSyncState::CatchingEdge { initial, polls_left: polls_left - 1 },
                    PpsSyncAction::PollLastPps,
                )
            } else {
                (
                    PpsSyncState::TimedOut,
                    PpsSyncAction::ReportTimeout { error: UhdError::Timeout },
                )
            }
        },
        _ => (state, PpsSyncAction::ReportTimeout { error: UhdError::Timeout }),
    }
}

} // verus!
