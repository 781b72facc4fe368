//! The table state machine: the lifecycle state of a table, derived from
//! the events of its log and from nothing else.

use vstd::prelude::*;
use vstd::string::StringExecFns;
use crate::log::{EventType, TableEvent};

pub mod drift;
pub mod policy;
pub mod policy_config;

verus! {

/// High-level lifecycle state of a table.
#[derive(Debug, Clone, Copy, PartialEq, Eq, Structural)]
pub enum TableState {
    /// The table exists but has no committed data yet.
    Created,
    /// The table is readable and stable.
    Active,
    /// The table is undergoing a change.
    Mutating,
}

/// Errors produced during state transitions.
#[derive(Debug, PartialEq, Eq)]
pub enum StateError {
    /// The event cannot be applied in the current state; the message names
    /// both.
    IllegalTransition(String),
}

impl StateError {
    /// The message an error carries.
    pub open spec fn message(&self) -> Seq<char> {
        match self {
            StateError::IllegalTransition(message) => message@,
        }
    }

    /// The error as one line of text.
    pub fn to_string(&self) -> (text: String)
        ensures
            text@ == "illegal state transition: "@ + self.message(),
    {
        match self {
            StateError::IllegalTransition(message) => {
                String::from_str("illegal state transition: ").concat(message.as_str())
            },
        }
    }
}

/// The transition table. `None` marks the pairs that are illegal.
pub open spec fn transition(state: TableState, event_type: EventType) -> Option<TableState> {
    match (state, event_type) {
        (TableState::Created, EventType::TableCreated) => Some(TableState::Active),
        (TableState::Active, EventType::SchemaUpdated) => Some(TableState::Mutating),
        (TableState::Active, EventType::SnapshotAdded) => Some(TableState::Mutating),
        (TableState::Active, EventType::SnapshotRemoved) => Some(TableState::Mutating),
        (TableState::Mutating, EventType::SchemaUpdated) => Some(TableState::Active),
        (TableState::Mutating, EventType::SnapshotAdded) => Some(TableState::Active),
        (TableState::Mutating, EventType::SnapshotRemoved) => Some(TableState::Active),
        _ => None,
    }
}

/// The name of a state, as it appears in messages.
pub open spec fn state_name(state: TableState) -> Seq<char> {
    match state {
        TableState::Created => "Created"@,
        TableState::Active => "Active"@,
        TableState::Mutating => "Mutating"@,
    }
}

/// The name of an event type, as it appears in messages.
pub open spec fn event_type_name(event_type: EventType) -> Seq<char> {
    match event_type {
        EventType::TableCreated => "TableCreated"@,
        EventType::SchemaUpdated => "SchemaUpdated"@,
        EventType::SnapshotAdded => "SnapshotAdded"@,
        EventType::SnapshotRemoved => "SnapshotRemoved"@,
    }
}

/// The message of an illegal transition: the event first, then the state.
pub open spec fn illegal_transition_message(state: TableState, event_type: EventType) -> Seq<
    char,
> {
    "cannot apply "@ + event_type_name(event_type) + " while in "@ + state_name(state)
}

/// The transition table is total: every pair of a state and an event type
/// is either one of the seven listed transitions or illegal, and which of
/// the two is decided by the pair alone. A table is created once, from
/// `Created`; every later event is a mutation, which opens a change on an
/// `Active` table and closes it on a `Mutating` one.
pub proof fn lemma_transition_table(state: TableState, event_type: EventType)
    ensures
        transition(state, event_type) is Some <==> (state == TableState::Created) == (event_type
            == EventType::TableCreated),
        transition(state, event_type) is Some && state == TableState::Created ==> transition(
            state,
            event_type,
        ) == Some(TableState::Active),
        transition(state, event_type) is Some && state == TableState::Active ==> transition(
            state,
            event_type,
        ) == Some(TableState::Mutating),
        transition(state, event_type) is Some && state == TableState::Mutating ==> transition(
            state,
            event_type,
        ) == Some(TableState::Active),
        transition(state, event_type) is Some ==> transition(state, event_type)
            != Some(TableState::Created),
{
}

impl TableState {
    /// The state's name.
    pub fn name(&self) -> (name: &'static str)
        ensures
            name@ == state_name(*self),
    {
        match self {
            TableState::Created => "Created",
            TableState::Active => "Active",
            TableState::Mutating => "Mutating",
        }
    }
}

impl EventType {
    /// The event type's name.
    pub fn name(&self) -> (name: &'static str)
        ensures
            name@ == event_type_name(*self),
    {
        match self {
            EventType::TableCreated => "TableCreated",
            EventType::SchemaUpdated => "SchemaUpdated",
            EventType::SnapshotAdded => "SnapshotAdded",
            EventType::SnapshotRemoved => "SnapshotRemoved",
        }
    }
}

/// Stateful reducer for table events.
#[derive(Debug)]
pub struct TableStateMachine {
    state: TableState,
}

impl View for TableStateMachine {
    type V = TableState;

    closed spec fn view(&self) -> TableState {
        self.state
    }
}

impl TableStateMachine {
    /// A state machine for a freshly created table.
    pub fn new() -> (machine: Self)
        ensures
            machine@ == TableState::Created,
    {
        TableStateMachine { state: TableState::Created }
    }

    /// Applies one event: moves to the state the transition table gives, or
    /// refuses the event and stays where it was.
    pub fn apply(&mut self, event: &TableEvent) -> (r: Result<(), StateError>)
        ensures
            match transition(old(self)@, event.event_type) {
                Some(next) => r is Ok && final(self)@ == next,
                None => r is Err && final(self)@ == old(self)@ && r->Err_0.message()
                    == illegal_transition_message(old(self)@, event.event_type),
            },
    {
        let next = match (self.state, event.event_type) {
            (TableState::Created, EventType::TableCreated) => TableState::Active,
            (
                TableState::Active,
                EventType::SchemaUpdated | EventType::SnapshotAdded | EventType::SnapshotRemoved,
            ) => TableState::Mutating,
            (
                TableState::Mutating,
                EventType::SchemaUpdated | EventType::SnapshotAdded | EventType::SnapshotRemoved,
            ) => TableState::Active,
            (state, event_type) => {
                let message = String::from_str("cannot apply ").concat(event_type.name()).concat(
                    " while in ",
                ).concat(state.name());
                return Err(StateError::IllegalTransition(message));
            },
        };
        self.state = next;
        Ok(())
    }

    /// The current derived state.
    pub fn current_state(&self) -> (state: &TableState)
        ensures
            *state == self@,
    {
        &self.state
    }
}

} // verus!
