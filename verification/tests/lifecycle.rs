use lodestone_core::error::{Error, ErrorInner};
use lodestone_core::lifecycle::{transition, LifecycleEvent, State};

fn all_states() -> Vec<State> {
    vec![State::Stopped, State::Starting, State::Running, State::Stopping]
}

fn all_events() -> Vec<LifecycleEvent> {
    vec![
        LifecycleEvent::StartRequested,
        LifecycleEvent::ProcessHealthy,
        LifecycleEvent::StartFailed,
        LifecycleEvent::StopRequested,
        LifecycleEvent::ProcessExited,
        LifecycleEvent::CrashDetected,
    ]
}

fn expected(state: State, event: LifecycleEvent) -> Option<State> {
    match (state, event) {
        (State::Stopped, LifecycleEvent::StartRequested) => Some(State::Starting),
        (State::Starting, LifecycleEvent::StartRequested) => Some(State::Starting),
        (State::Running, LifecycleEvent::StartRequested) => Some(State::Running),
        (State::Starting, LifecycleEvent::ProcessHealthy) => Some(State::Running),
        (State::Starting, LifecycleEvent::StartFailed) => Some(State::Stopped),
        (State::Running, LifecycleEvent::StopRequested) => Some(State::Stopping),
        (State::Stopped, LifecycleEvent::StopRequested) => Some(State::Stopped),
        (State::Stopping, LifecycleEvent::ProcessExited) => Some(State::Stopped),
        (_, LifecycleEvent::CrashDetected) => Some(State::Stopped),
        _ => None,
    }
}

#[test]
fn start_from_stopped_enters_starting() {
    let next = transition(State::Stopped, LifecycleEvent::StartRequested).unwrap();
    assert_eq!(next, State::Starting);
}

#[test]
fn healthy_process_enters_running() {
    let next = transition(State::Starting, LifecycleEvent::ProcessHealthy).unwrap();
    assert_eq!(next, State::Running);
}

#[test]
fn stop_walks_through_stopping_to_stopped() {
    let stopping = transition(State::Running, LifecycleEvent::StopRequested).unwrap();
    assert_eq!(stopping, State::Stopping);
    let stopped = transition(stopping, LifecycleEvent::ProcessExited).unwrap();
    assert_eq!(stopped, State::Stopped);
}

#[test]
fn failed_start_returns_to_stopped() {
    let next = transition(State::Starting, LifecycleEvent::StartFailed).unwrap();
    assert_eq!(next, State::Stopped);
}

#[test]
fn crash_leads_to_stopped_from_every_state() {
    for state in all_states() {
        let next = transition(state, LifecycleEvent::CrashDetected).unwrap();
        assert_eq!(next, State::Stopped);
    }
}

#[test]
fn stop_on_stopped_is_a_successful_noop() {
    let next = transition(State::Stopped, LifecycleEvent::StopRequested).unwrap();
    assert_eq!(next, State::Stopped);
}

#[test]
fn start_on_running_is_a_noop() {
    let next = transition(State::Running, LifecycleEvent::StartRequested).unwrap();
    assert_eq!(next, State::Running);
}

#[test]
fn every_pair_is_accepted_or_refused_as_listed() {
    for state in all_states() {
        for event in all_events() {
            let result: Result<State, Error> = transition(state, event);
            match expected(state, event) {
                Some(next) => assert_eq!(result.unwrap(), next),
                None => {
                    let error = result.unwrap_err();
                    assert_eq!(error.inner, ErrorInner::InvalidInstanceState);
                    assert_eq!(error.detail, "the instance is not in a state that allows this");
                }
            }
        }
    }
}

#[test]
fn start_while_stopping_is_a_state_error() {
    let error = transition(State::Stopping, LifecycleEvent::StartRequested).unwrap_err();
    assert_eq!(error.inner, ErrorInner::InvalidInstanceState);
}

#[test]
fn stop_while_starting_is_a_state_error() {
    let error = transition(State::Starting, LifecycleEvent::StopRequested).unwrap_err();
    assert_eq!(error.inner, ErrorInner::InvalidInstanceState);
}

#[test]
fn exit_outside_stopping_is_a_state_error() {
    for state in vec![State::Stopped, State::Starting, State::Running] {
        let error = transition(state, LifecycleEvent::ProcessExited).unwrap_err();
        assert_eq!(error.inner, ErrorInner::InvalidInstanceState);
    }
}
