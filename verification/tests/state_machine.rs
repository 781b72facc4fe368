use axiom_kernel::log::{EventType, TableEvent, TableId};
use axiom_kernel::state::{StateError, TableState, TableStateMachine};
use uuid::Uuid;

fn machine_event(event_type: EventType) -> TableEvent {
    TableEvent { table_id: TableId(Uuid::new_v4()), version: 1, event_type, payload: vec![] }
}

fn machine_in(state: TableState) -> TableStateMachine {
    let mut sm = TableStateMachine::new();
    match state {
        TableState::Created => {}
        TableState::Active => {
            sm.apply(&machine_event(EventType::TableCreated)).unwrap();
        }
        TableState::Mutating => {
            sm.apply(&machine_event(EventType::TableCreated)).unwrap();
            sm.apply(&machine_event(EventType::SnapshotAdded)).unwrap();
        }
    }
    assert_eq!(sm.current_state(), &state);
    sm
}

#[test]
fn valid_lifecycle() {
    let mut sm = TableStateMachine::new();

    sm.apply(&machine_event(EventType::TableCreated)).unwrap();
    assert_eq!(sm.current_state(), &TableState::Active);

    sm.apply(&machine_event(EventType::SchemaUpdated)).unwrap();
    assert_eq!(sm.current_state(), &TableState::Mutating);

    sm.apply(&machine_event(EventType::SnapshotAdded)).unwrap();
    assert_eq!(sm.current_state(), &TableState::Active);
}

#[test]
fn illegal_transition_is_rejected() {
    let mut sm = TableStateMachine::new();

    let err = sm.apply(&machine_event(EventType::SchemaUpdated)).unwrap_err();

    assert!(matches!(err, StateError::IllegalTransition(_)));
}

#[test]
fn new_machine_starts_created() {
    assert_eq!(TableStateMachine::new().current_state(), &TableState::Created);
}

#[test]
fn every_pair_follows_the_transition_table() {
    let mutations =
        [EventType::SchemaUpdated, EventType::SnapshotAdded, EventType::SnapshotRemoved];

    let mut sm = machine_in(TableState::Created);
    assert_eq!(sm.apply(&machine_event(EventType::TableCreated)), Ok(()));
    assert_eq!(sm.current_state(), &TableState::Active);

    for kind in mutations {
        let mut sm = machine_in(TableState::Created);
        assert!(sm.apply(&machine_event(kind)).is_err());
        assert_eq!(sm.current_state(), &TableState::Created);

        let mut sm = machine_in(TableState::Active);
        assert_eq!(sm.apply(&machine_event(kind)), Ok(()));
        assert_eq!(sm.current_state(), &TableState::Mutating);

        let mut sm = machine_in(TableState::Mutating);
        assert_eq!(sm.apply(&machine_event(kind)), Ok(()));
        assert_eq!(sm.current_state(), &TableState::Active);
    }

    for state in [TableState::Active, TableState::Mutating] {
        let mut sm = machine_in(state);
        assert!(sm.apply(&machine_event(EventType::TableCreated)).is_err());
        assert_eq!(sm.current_state(), &state);
    }
}

#[test]
fn illegal_transition_names_event_and_state() {
    let mut sm = TableStateMachine::new();
    let err = sm.apply(&machine_event(EventType::SchemaUpdated)).unwrap_err();
    assert_eq!(
        err,
        StateError::IllegalTransition("cannot apply SchemaUpdated while in Created".to_string())
    );
    assert_eq!(
        err.to_string(),
        "illegal state transition: cannot apply SchemaUpdated while in Created"
    );

    let mut sm = machine_in(TableState::Mutating);
    let err = sm.apply(&machine_event(EventType::TableCreated)).unwrap_err();
    assert_eq!(
        err,
        StateError::IllegalTransition("cannot apply TableCreated while in Mutating".to_string())
    );

    let mut sm = machine_in(TableState::Active);
    let err = sm.apply(&machine_event(EventType::TableCreated)).unwrap_err();
    assert_eq!(
        err,
        StateError::IllegalTransition("cannot apply TableCreated while in Active".to_string())
    );
}

#[test]
fn names_of_states_and_event_types() {
    assert_eq!(TableState::Created.name(), "Created");
    assert_eq!(TableState::Active.name(), "Active");
    assert_eq!(TableState::Mutating.name(), "Mutating");
    assert_eq!(EventType::TableCreated.name(), "TableCreated");
    assert_eq!(EventType::SchemaUpdated.name(), "SchemaUpdated");
    assert_eq!(EventType::SnapshotAdded.name(), "SnapshotAdded");
    assert_eq!(EventType::SnapshotRemoved.name(), "SnapshotRemoved");
}
