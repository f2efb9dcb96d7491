//! The lifecycle state machine of one instance.

use vstd::prelude::*;
use crate::error::{Error, ErrorInner, ErrorView};

verus! {

/// Where the managed process stands.
#[derive(Debug, Clone, Copy, PartialEq, Eq, Structural)]
pub enum State {
    Stopped,
    Starting,
    Running,
    Stopping,
}

/// What can happen to an instance.
#[derive(Debug, Clone, Copy, PartialEq, Eq, Structural)]
pub enum LifecycleEvent {
    /// A caller asked for the process to be started.
    StartRequested,
    /// The launched process was confirmed to be up.
    ProcessHealthy,
    /// The launch did not produce a running process.
    StartFailed,
    /// A caller asked for the process to be stopped.
    StopRequested,
    /// The process ended after a stop was requested.
    ProcessExited,
    /// The process ended although nobody asked it to.
    CrashDetected,
}

/// The edges of the state machine: the state that `event` leads to from
/// `state`, or `None` where the machine has no such edge.
pub open spec fn edge(state: State, event: LifecycleEvent) -> Option<State> {
    match (state, event) {
        (State::Stopped, LifecycleEvent::StartRequested) => Some(State::Starting),
        (State::Starting, LifecycleEvent::ProcessHealthy) => Some(State::Running),
        (State::Starting, LifecycleEvent::StartFailed) => Some(State::Stopped),
        (State::Running, LifecycleEvent::StopRequested) => Some(State::Stopping),
        (State::Stopping, LifecycleEvent::ProcessExited) => Some(State::Stopped),
        (_, LifecycleEvent::CrashDetected) => Some(State::Stopped),
        _ => None,
    }
}

/// Requests that find the instance where they want it already, and leave it
/// untouched without being an error.
pub open spec fn is_noop(state: State, event: LifecycleEvent) -> bool {
    match (state, event) {
        (State::Running, LifecycleEvent::StartRequested) => true,
        (State::Starting, LifecycleEvent::StartRequested) => true,
        (State::Stopped, LifecycleEvent::StopRequested) => true,
        _ => false,
    }
}

/// The state after `event`, for every pair that is accepted.
pub open spec fn next_state(state: State, event: LifecycleEvent) -> Option<State> {
    if is_noop(state, event) {
        Some(state)
    } else {
        edge(state, event)
    }
}

/// The error with which a pair outside the machine is refused.
pub open spec fn refusal() -> ErrorView {
    ErrorView {
        inner: ErrorInner::InvalidInstanceState,
        detail: "the instance is not in a state that allows this"@,
    }
}

/// Applies `event` to `state`.
///
/// An edge of the machine gives its target, a request that is already
/// fulfilled gives the state back, and anything else is refused as an
/// invalid-state error.
pub fn transition(state: State, event: LifecycleEvent) -> (result: Result<State, Error>)
    ensures
        match next_state(state, event) {
            Some(s) => result == Ok::<State, Error>(s),
            None => result is Err && result->Err_0@ == refusal(),
        },
{
    match (state, event) {
        (State::Running, LifecycleEvent::StartRequested) => Ok(state),
        (State::Starting, LifecycleEvent::StartRequested) => Ok(state),
        (State::Stopped, LifecycleEvent::StopRequested) => Ok(state),
        (State::Stopped, LifecycleEvent::StartRequested) => Ok(State::Starting),
        (State::Starting, LifecycleEvent::ProcessHealthy) => Ok(State::Running),
        (State::Starting, LifecycleEvent::StartFailed) => Ok(State::Stopped),
        (State::Running, LifecycleEvent::StopRequested) => Ok(State::Stopping),
        (State::Stopping, LifecycleEvent::ProcessExited) => Ok(State::Stopped),
        (_, LifecycleEvent::CrashDetected) => Ok(State::Stopped),
        _ => Err(Error::new(ErrorInner::InvalidInstanceState, "the instance is not in a state that allows this")),
    }
}

/// The state in which a manager starts out, whether its instance was just
/// provisioned or restored from disk.
pub open spec fn initial_state() -> State {
    State::Stopped
}

/// What the machine accepts, pair by pair.
///
/// Stopping a stopped instance and starting a running or starting one
/// leave the state as it is. The edges are: start from `Stopped`, healthy
/// process and failed start from `Starting`, stop from `Running`, exit from
/// `Stopping`, and a crash from any state. Every other pair has no next
/// state, which is what `transition` refuses with an invalid-state error.
pub proof fn lemma_accepted_pairs(state: State, event: LifecycleEvent)
    ensures
        next_state(State::Stopped, LifecycleEvent::StopRequested) == Some(State::Stopped),
        next_state(State::Running, LifecycleEvent::StartRequested) == Some(State::Running),
        next_state(State::Starting, LifecycleEvent::StartRequested) == Some(State::Starting),
        next_state(state, event) is Some <==> {
            ||| event == LifecycleEvent::CrashDetected
            ||| event == LifecycleEvent::StartRequested && state != State::Stopping
            ||| event == LifecycleEvent::StopRequested && (state == State::Running || state == State::Stopped)
            ||| event == LifecycleEvent::ProcessHealthy && state == State::Starting
            ||| event == LifecycleEvent::StartFailed && state == State::Starting
            ||| event == LifecycleEvent::ProcessExited && state == State::Stopping
        },
        next_state(state, event) matches Some(next) ==> is_noop(state, event) && next == state || edge(state, event)
            == Some(next),
{
}

/// A request that is already fulfilled changes nothing however often it
/// is repeated.
pub proof fn lemma_noop_is_idempotent(state: State, event: LifecycleEvent)
    requires
        is_noop(state, event),
    ensures
        next_state(state, event) == Some(state),
        is_noop(next_state(state, event)->Some_0, event),
{
}

} // verus!
