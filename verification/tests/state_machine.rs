use lodestone_core::state::{ServerOperationError, State, StateAction};

#[test]
fn user_start_from_stopped_goes_starting() {
    assert_eq!(State::Stopped.try_transition(StateAction::UserStart), Ok(State::Starting));
}

#[test]
fn ready_observation_promotes_starting_to_running() {
    assert_eq!(State::Starting.try_transition(StateAction::InstanceStart), Ok(State::Running));
}

#[test]
fn startup_failure_settles_to_stopped() {
    assert_eq!(State::Starting.try_transition(StateAction::InstanceStop), Ok(State::Stopped));
}

#[test]
fn user_stop_from_running_goes_stopping() {
    assert_eq!(State::Running.try_transition(StateAction::UserStop), Ok(State::Stopping));
}

#[test]
fn crash_from_running_settles_to_stopped() {
    assert_eq!(State::Running.try_transition(StateAction::InstanceStop), Ok(State::Stopped));
}

#[test]
fn exit_from_stopping_settles_to_stopped() {
    assert_eq!(State::Stopping.try_transition(StateAction::InstanceStop), Ok(State::Stopped));
}

#[test]
fn invalid_attempts_name_the_conflicting_state() {
    assert_eq!(
        State::Starting.try_transition(StateAction::UserStart),
        Err(ServerOperationError::AlreadyStarting)
    );
    assert_eq!(
        State::Running.try_transition(StateAction::UserStart),
        Err(ServerOperationError::AlreadyRunning)
    );
    assert_eq!(
        State::Stopping.try_transition(StateAction::UserStart),
        Err(ServerOperationError::AlreadyStopping)
    );
    assert_eq!(
        State::Stopped.try_transition(StateAction::UserStop),
        Err(ServerOperationError::NotRunning)
    );
    assert_eq!(
        State::Stopped.try_transition(StateAction::InstanceStop),
        Err(ServerOperationError::NotRunning)
    );
}
