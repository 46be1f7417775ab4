//! The shutdown coordinator's state machine.
//!
//! The serve loop and the wait for a cancellation signal race outside the
//! library; whichever finishes first is reported here as an event, and
//! the step function decides the next state and the action to perform:
//! keep running, drain the pipelines, or exit.

use vstd::prelude::*;

verus! {

/// The coordinator's phases, from serving to process exit.
#[derive(Clone, Copy, PartialEq, Eq, Structural, Debug)]
pub enum CoordinatorState {
    Running,
    Draining,
    Terminated,
}

/// What the outside world reports to the coordinator.
#[derive(Clone, Copy, PartialEq, Eq, Structural, Debug)]
pub enum CoordinatorEvent {
    CancelRequested,
    ServerExited,
    DrainComplete,
}

/// What the caller must do after a step.
#[derive(Clone, Copy, PartialEq, Eq, Structural, Debug)]
pub enum CoordinatorAction {
    KeepRunning,
    DrainPipelines,
    ExitProcess,
}

/// The transition relation. A cancellation while running starts the
/// drain; a completed drain terminates. A serve loop that exits on its
/// own terminates directly, without the drain: the clean-shutdown path
/// runs only on cancellation.
pub open spec fn next_state(st: CoordinatorState, ev: CoordinatorEvent) -> CoordinatorState {
    match (st, ev) {
        (CoordinatorState::Running, CoordinatorEvent::CancelRequested) => CoordinatorState::Draining,
        (CoordinatorState::Running, CoordinatorEvent::ServerExited) => CoordinatorState::Terminated,
        (CoordinatorState::Draining, CoordinatorEvent::DrainComplete) => CoordinatorState::Terminated,
        (s, _) => s,
    }
}

/// The action owed after each transition.
pub open spec fn next_action(st: CoordinatorState, ev: CoordinatorEvent) -> CoordinatorAction {
    match (st, ev) {
        (CoordinatorState::Running, CoordinatorEvent::CancelRequested) => CoordinatorAction::DrainPipelines,
        (CoordinatorState::Running, CoordinatorEvent::ServerExited) => CoordinatorAction::ExitProcess,
        (CoordinatorState::Draining, CoordinatorEvent::DrainComplete) => CoordinatorAction::ExitProcess,
        (CoordinatorState::Terminated, _) => CoordinatorAction::ExitProcess,
        (_, _) => CoordinatorAction::KeepRunning,
    }
}

/// One step of the coordinator: exactly the transition relation.
pub fn coordinator_step(st: CoordinatorState, ev: CoordinatorEvent) -> (r: (
    CoordinatorState,
    CoordinatorAction,
))
    ensures
        r.0 == next_state(st, ev),
        r.1 == next_action(st, ev),
{
    match (st, ev) {
        (CoordinatorState::Running, CoordinatorEvent::CancelRequested) => (
            CoordinatorState::Draining,
            CoordinatorAction::DrainPipelines,
        ),
        (CoordinatorState::Running, CoordinatorEvent::ServerExited) => (
            CoordinatorState::Terminated,
            CoordinatorAction::ExitProcess,
        ),
        (CoordinatorState::Draining, CoordinatorEvent::DrainComplete) => (
            CoordinatorState::Terminated,
            CoordinatorAction::ExitProcess,
        ),
        (CoordinatorState::Terminated, _) => (
            CoordinatorState::Terminated,
            CoordinatorAction::ExitProcess,
        ),
        (s, _) => (s, CoordinatorAction::KeepRunning),
    }
}

} // verus!
