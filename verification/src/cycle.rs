//! One subscription cycle: open a market subscription, wait for the first
//! delivered snapshot, close the subscription, then hand the captured view
//! to the decision routine.
//!
//! The transport work — subscribing, awaiting the completion signal,
//! unsubscribing — belongs to the caller that drives the transport; this
//! module is the state machine that tells it, from the phase the cycle is in
//! and the event that arrived, which phase comes next and which action to
//! perform. Only the first snapshot of a cycle is authoritative: a snapshot
//! delivered after the wait has resolved is tolerated and ignored, and a
//! failed unsubscription still proceeds on the state already captured
//! rather than blocking.

use vstd::prelude::*;

verus! {

/// Where one subscription cycle stands.
#[derive(Clone, Copy, Debug, PartialEq, Eq, Structural)]
pub enum CyclePhase {
    /// The subscription request has been issued and not yet answered.
    Opening,
    /// The subscription is live; the cycle waits for the first snapshot.
    Waiting,
    /// The snapshot arrived; the unsubscription request is outstanding.
    Closing,
    /// The cycle is over and the captured view is authoritative.
    Done,
    /// The cycle is over without a captured view; skip this market.
    Failed,
}

/// What the transport reports to the cycle.
#[derive(Clone, Copy, Debug, PartialEq, Eq, Structural)]
pub enum CycleEvent {
    /// The subscription was confirmed.
    Opened,
    /// The subscription could not be opened.
    OpenFailed,
    /// The completion signal fired: the first snapshot is in the view.
    SnapshotReady,
    /// The unsubscription completed.
    Closed,
    /// The unsubscription failed.
    CloseFailed,
}

/// What the caller must do next.
#[derive(Clone, Copy, Debug, PartialEq, Eq, Structural)]
pub enum CycleAction {
    /// Block until the completion signal fires.
    AwaitSnapshot,
    /// Issue the unsubscription request.
    CloseSubscription,
    /// Proceed to the decisions on the captured view.
    UseCapturedBook,
    /// Skip this market and move to the next order.
    AbandonMarket,
    /// Nothing: the event does not concern the current phase.
    Ignore,
}

/// The transition relation of one cycle.
///
/// A confirmed open starts the wait; a failed open abandons the market. The
/// first snapshot moves the cycle to closing. Whether the unsubscription
/// succeeds or fails, the captured view is used — closing is best-effort.
/// An event that does not concern the current phase, such as a late
/// snapshot pushed while the unsubscription is outstanding, changes nothing
/// and is ignored; the two terminal phases never move.
pub open spec fn cycle_step_spec(phase: CyclePhase, event: CycleEvent) -> (CyclePhase, CycleAction) {
    match (phase, event) {
        (CyclePhase::Opening, CycleEvent::Opened) => (CyclePhase::Waiting, CycleAction::AwaitSnapshot),
        (CyclePhase::Opening, CycleEvent::OpenFailed) => (CyclePhase::Failed, CycleAction::AbandonMarket),
        (CyclePhase::Waiting, CycleEvent::SnapshotReady) => (CyclePhase::Closing, CycleAction::CloseSubscription),
        (CyclePhase::Closing, CycleEvent::Closed) => (CyclePhase::Done, CycleAction::UseCapturedBook),
        (CyclePhase::Closing, CycleEvent::CloseFailed) => (CyclePhase::Done, CycleAction::UseCapturedBook),
        _ => (phase, CycleAction::Ignore),
    }
}

/// Advance one subscription cycle by one transport event.
pub fn cycle_step(phase: CyclePhase, event: CycleEvent) -> (r: (CyclePhase, CycleAction))
    ensures
        r == cycle_step_spec(phase, event),
{
    match (phase, event) {
        (CyclePhase::Opening, CycleEvent::Opened) => (CyclePhase::Waiting, CycleAction::AwaitSnapshot),
        (CyclePhase::Opening, CycleEvent::OpenFailed) => (CyclePhase::Failed, CycleAction::AbandonMarket),
        (CyclePhase::Waiting, CycleEvent::SnapshotReady) => (CyclePhase::Closing, CycleAction::CloseSubscription),
        (CyclePhase::Closing, CycleEvent::Closed) => (CyclePhase::Done, CycleAction::UseCapturedBook),
        (CyclePhase::Closing, CycleEvent::CloseFailed) => (CyclePhase::Done, CycleAction::UseCapturedBook),
        _ => (phase, CycleAction::Ignore),
    }
}

/// Terminal phases stay terminal: no event moves a finished cycle, so a
/// late delivery can never reopen a cycle whose view is already in use.
pub proof fn lemma_terminal_phases_stable(phase: CyclePhase, event: CycleEvent)
    requires
        phase == CyclePhase::Done || phase == CyclePhase::Failed,
    ensures
        cycle_step_spec(phase, event).0 == phase,
        cycle_step_spec(phase, event).1 == CycleAction::Ignore,
{
}

} // verus!
