//! The per-instance lifecycle state machine.
//!
//! Transitions are attempted through a single guarded operation: given the
//! current state and a requested action it either yields the new state or
//! fails with the error naming the conflicting state. No attempt is ever
//! silently ignored.

use vstd::prelude::*;

verus! {

/// Lifecycle state of one managed instance. `Stopped` and `Running` are
/// resting states; `Starting` and `Stopping` are transient and always
/// followed by another transition once process activity settles.
#[derive(Clone, Copy, Debug, PartialEq, Eq, Structural)]
pub enum State {
    Starting,
    Running,
    Stopping,
    Stopped,
}

/// A requested transition: either a user command or an observation made by
/// the reader task that supervises the child process.
#[derive(Clone, Copy, Debug, PartialEq, Eq, Structural)]
pub enum StateAction {
    /// A user asked the instance to start.
    UserStart,
    /// A user asked the instance to stop.
    UserStop,
    /// The reader task saw the process report readiness.
    InstanceStart,
    /// The reader task saw the process exit.
    InstanceStop,
}

/// Why a requested transition was refused, naming the conflicting state.
#[derive(Clone, Copy, Debug, PartialEq, Eq, Structural)]
pub enum ServerOperationError {
    AlreadyStarting,
    AlreadyRunning,
    AlreadyStopping,
    NotRunning,
}

/// The transition table: the target state, or `None` when the action is
/// invalid in the given state.
pub open spec fn transition_target(s: State, a: StateAction) -> Option<State> {
    match (s, a) {
        (State::Stopped, StateAction::UserStart) => Some(State::Starting),
        (State::Starting, StateAction::InstanceStart) => Some(State::Running),
        (State::Starting, StateAction::InstanceStop) => Some(State::Stopped),
        (State::Running, StateAction::UserStop) => Some(State::Stopping),
        (State::Running, StateAction::InstanceStop) => Some(State::Stopped),
        (State::Stopping, StateAction::InstanceStop) => Some(State::Stopped),
        _ => None,
    }
}

/// The error reported for an invalid attempt: it names the state that the
/// instance is already in.
pub open spec fn transition_conflict(s: State, a: StateAction) -> ServerOperationError {
    match s {
        State::Starting => ServerOperationError::AlreadyStarting,
        State::Running => ServerOperationError::AlreadyRunning,
        State::Stopping => ServerOperationError::AlreadyStopping,
        State::Stopped => ServerOperationError::NotRunning,
    }
}

/// What one guarded attempt returns.
pub open spec fn spec_try_transition(s: State, a: StateAction) -> Result<
    State,
    ServerOperationError,
> {
    match transition_target(s, a) {
        Some(t) => Ok(t),
        None => Err(transition_conflict(s, a)),
    }
}

/// The human-readable detail of a refused attempt, naming the state the
/// instance is already in.
pub open spec fn conflict_detail(s: State) -> Seq<char> {
    match s {
        State::Starting => "Instance is already starting"@,
        State::Running => "Instance is already running"@,
        State::Stopping => "Instance is already stopping"@,
        State::Stopped => "Instance is not running"@,
    }
}

/// The refusal message naming the conflicting state.
pub fn conflict_message(s: State) -> (r: String)
    ensures
        r@ == conflict_detail(s),
{
    match s {
        State::Starting => "Instance is already starting".to_owned(),
        State::Running => "Instance is already running".to_owned(),
        State::Stopping => "Instance is already stopping".to_owned(),
        State::Stopped => "Instance is not running".to_owned(),
    }
}

impl State {
    /// The single guarded transition attempt. Succeeds exactly on the rows
    /// of the transition table and otherwise reports the conflicting state.
    pub fn try_transition(self, a: StateAction) -> (r: Result<State, ServerOperationError>)
        ensures
            r == spec_try_transition(self, a),
    {
        match (self, a) {
            (State::Stopped, StateAction::UserStart) => Ok(State::Starting),
            (State::Starting, StateAction::InstanceStart) => Ok(State::Running),
            (State::Starting, StateAction::InstanceStop) => Ok(State::Stopped),
            (State::Running, StateAction::UserStop) => Ok(State::Stopping),
            (State::Running, StateAction::InstanceStop) => Ok(State::Stopped),
            (State::Stopping, StateAction::InstanceStop) => Ok(State::Stopped),
            (State::Starting, _) => Err(ServerOperationError::AlreadyStarting),
            (State::Running, _) => Err(ServerOperationError::AlreadyRunning),
            (State::Stopping, _) => Err(ServerOperationError::AlreadyStopping),
            (State::Stopped, _) => Err(ServerOperationError::NotRunning),
        }
    }

    /// A settled instance rests in one of the two stable states.
    pub open spec fn is_settled(self) -> bool {
        self == State::Stopped || self == State::Running
    }
}

/// Every transition taken on process exit settles the instance: whatever
/// the prior state, observing the exit leaves it `Stopped`.
pub proof fn lemma_process_exit_settles(s: State)
    ensures
        s != State::Stopped ==> spec_try_transition(s, StateAction::InstanceStop) == Ok::<
            State,
            ServerOperationError,
        >(State::Stopped),
        s != State::Stopped ==> transition_target(s, StateAction::InstanceStop).unwrap().is_settled(),
{
}

/// The state after serializing a sequence of transition attempts through
/// the guard: a refused attempt changes nothing.
pub open spec fn apply_actions(s: State, actions: Seq<StateAction>) -> State
    decreases actions.len(),
{
    if actions.len() == 0 {
        s
    } else {
        let s1 = match transition_target(s, actions[0]) {
            Some(t) => t,
            None => s,
        };
        apply_actions(s1, actions.drop_first())
    }
}

/// However start, stop and kill requests interleave — each serialized
/// through the guarded transition — the instance holds exactly one state
/// at every step (`apply_actions` is a function of the history), and once
/// the reader observes the process exit the instance has settled: the
/// state is exactly `Stopped`.
pub proof fn lemma_requests_settle_on_exit(s: State, actions: Seq<StateAction>)
    ensures
        apply_actions(s, actions.push(StateAction::InstanceStop)) == State::Stopped,
        apply_actions(s, actions.push(StateAction::InstanceStop)).is_settled(),
    decreases actions.len(),
{
    let whole = actions.push(StateAction::InstanceStop);
    if actions.len() == 0 {
        assert(whole[0] == StateAction::InstanceStop);
        assert(whole.drop_first() =~= Seq::<StateAction>::empty());
        let s1 = match transition_target(s, StateAction::InstanceStop) {
            Some(t) => t,
            None => s,
        };
        assert(s1 == State::Stopped);
        assert(apply_actions(s1, whole.drop_first()) == s1);
        assert(apply_actions(s, whole) == apply_actions(s1, whole.drop_first()));
    } else {
        assert(whole[0] == actions[0]);
        assert(whole.drop_first() =~= actions.drop_first().push(StateAction::InstanceStop));
        let s1 = match transition_target(s, actions[0]) {
            Some(t) => t,
            None => s,
        };
        lemma_requests_settle_on_exit(s1, actions.drop_first());
        assert(apply_actions(s, whole) == apply_actions(s1, whole.drop_first()));
    }
}

} // verus!
