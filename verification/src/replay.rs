//! The replay engine: the one way to derive a table's state from its log.

use vstd::prelude::*;
use vstd::string::StringExecFns;
use crate::invariants::{
    first_violation, violation_text, Invariant, InvariantEngine, InvariantViolation,
    InvariantViolationView,
};
use crate::log::{event_views, MetadataLog, MetadataLogStore, TableEventView};
use crate::state::{
    illegal_transition_message, transition, StateError, TableState, TableStateMachine,
};

verus! {

/// Errors that can occur during replay.
#[derive(Debug)]
pub enum ReplayError {
    /// The state machine refused an event.
    State(StateError),
    /// A rule rejected a transition that the state machine allows.
    Invariant(InvariantViolation),
}

/// A `ReplayError` with its texts as sequences of characters.
pub enum ReplayErrorView {
    State(Seq<char>),
    Invariant(InvariantViolationView),
}

impl View for ReplayError {
    type V = ReplayErrorView;

    open spec fn view(&self) -> ReplayErrorView {
        match self {
            ReplayError::State(error) => ReplayErrorView::State(error.message()),
            ReplayError::Invariant(violation) => ReplayErrorView::Invariant(violation@),
        }
    }
}

impl From<StateError> for ReplayError {
    fn from(error: StateError) -> (r: ReplayError) {
        ReplayError::State(error)
    }
}

impl vstd::std_specs::convert::FromSpecImpl<StateError> for ReplayError {
    open spec fn obeys_from_spec() -> bool {
        true
    }

    open spec fn from_spec(error: StateError) -> ReplayError {
        ReplayError::State(error)
    }
}

impl From<InvariantViolation> for ReplayError {
    fn from(violation: InvariantViolation) -> (r: ReplayError) {
        ReplayError::Invariant(violation)
    }
}

impl vstd::std_specs::convert::FromSpecImpl<InvariantViolation> for ReplayError {
    open spec fn obeys_from_spec() -> bool {
        true
    }

    open spec fn from_spec(violation: InvariantViolation) -> ReplayError {
        ReplayError::Invariant(violation)
    }
}

/// The text of a replay error.
pub open spec fn replay_error_text(error: ReplayErrorView) -> Seq<char> {
    match error {
        ReplayErrorView::State(message) => "state machine error: "@ + (
        "illegal state transition: "@ + message),
        ReplayErrorView::Invariant(violation) => "invariant violation: "@ + violation_text(
            violation,
        ),
    }
}

impl ReplayError {
    /// The error as one line of text.
    pub fn to_string(&self) -> (text: String)
        ensures
            text@ == replay_error_text(self@),
    {
        match self {
            ReplayError::State(error) => String::from_str("state machine error: ").concat(
                error.to_string().as_str(),
            ),
            ReplayError::Invariant(violation) => String::from_str("invariant violation: ").concat(
                violation.to_string().as_str(),
            ),
        }
    }
}

/// Replay of the events from index `from` on, starting in `state`: each
/// event moves the state as the transition table says and must then pass
/// every rule; the first event that does not ends the replay with its
/// error.
pub open spec fn replay_from<I: Invariant>(
    state: TableState,
    events: Seq<TableEventView>,
    from: int,
    rules: Seq<I>,
) -> Result<TableState, ReplayErrorView>
    decreases events.len() - from,
{
    if from < 0 || from >= events.len() {
        Ok(state)
    } else {
        match transition(state, events[from].event_type) {
            None => Err(
                ReplayErrorView::State(
                    illegal_transition_message(state, events[from].event_type),
                ),
            ),
            Some(next) => match first_violation(rules, 0, state, events[from], next) {
                Some(violation) => Err(ReplayErrorView::Invariant(violation)),
                None => replay_from(next, events, from + 1, rules),
            },
        }
    }
}

/// The state a log derives: replay of all its events from `Created`.
pub open spec fn derived_state<I: Invariant>(events: Seq<TableEventView>, rules: Seq<I>) -> Result<
    TableState,
    ReplayErrorView,
> {
    replay_from(TableState::Created, events, 0, rules)
}

/// What a replay answers, by its view.
pub open spec fn replay_view(r: Result<TableState, ReplayError>) -> Result<
    TableState,
    ReplayErrorView,
> {
    match r {
        Ok(state) => Ok(state),
        Err(error) => Err(error@),
    }
}

/// `r` is an answer that replay may give for these events and rules.
pub open spec fn is_replay_of<I: Invariant>(
    r: Result<TableState, ReplayError>,
    events: Seq<TableEventView>,
    rules: Seq<I>,
) -> bool {
    replay_view(r) == derived_state(events, rules)
}

/// Replay is deterministic: two replays of the same events under the same
/// rules end in the same state, or fail with the same first error.
pub proof fn lemma_replay_deterministic<I: Invariant>(
    first: Result<TableState, ReplayError>,
    second: Result<TableState, ReplayError>,
    events: Seq<TableEventView>,
    rules: Seq<I>,
)
    requires
        is_replay_of(first, events, rules),
        is_replay_of(second, events, rules),
    ensures
        replay_view(first) == replay_view(second),
        first is Ok ==> second is Ok && first->Ok_0 == second->Ok_0,
        first is Err ==> second is Err && first->Err_0@ == second->Err_0@,
{
}

/// Replays the log and derives the final table state.
pub fn replay_table_state<S: MetadataLogStore, I: Invariant>(
    log: &MetadataLog<S>,
    invariants: &InvariantEngine<I>,
) -> (r: Result<TableState, ReplayError>)
    requires
        log.well_formed(),
    ensures
        is_replay_of(r, log@, invariants@),
        log@.len() == 0 ==> r is Ok && r->Ok_0 == TableState::Created,
{
    let events = log.replay();
    let mut state_machine = TableStateMachine::new();
    let mut current_state = *state_machine.current_state();
    let mut i: usize = 0;
    while i < events.len()
        invariant
            i <= events@.len(),
            event_views(events@) == log@,
            state_machine@ == current_state,
            derived_state(log@, invariants@) == replay_from(
                current_state,
                log@,
                i as int,
                invariants@,
            ),
        decreases events@.len() - i,
    {
        let event = &events[i];
        assert(event@ == log@[i as int]);
        match state_machine.apply(event) {
            Ok(_) => {},
            Err(error) => {
                return Err(ReplayError::State(error));
            },
        }
        let next_state = *state_machine.current_state();
        match invariants.evaluate(&current_state, event, &next_state) {
            Ok(_) => {},
            Err(violation) => {
                return Err(ReplayError::Invariant(violation));
            },
        }
        current_state = next_state;
        i += 1;
    }
    Ok(current_state)
}

} // verus!
