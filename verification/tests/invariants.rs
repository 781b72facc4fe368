use axiom_kernel::invariants::{Invariant, InvariantEngine, InvariantResult};
use axiom_kernel::log::{EventType, TableEvent, TableId};
use axiom_kernel::state::TableState;
use uuid::Uuid;

struct NoMutationFromCreated;

impl Invariant for NoMutationFromCreated {
    fn name(&self) -> &'static str {
        "no-mutation-from-created"
    }

    fn validate(
        &self,
        previous: &TableState,
        _event: &TableEvent,
        next: &TableState,
    ) -> InvariantResult {
        if previous == &TableState::Created && next == &TableState::Mutating {
            InvariantResult::Fail("cannot mutate table before activation".into())
        } else {
            InvariantResult::Pass
        }
    }
}

/// A rule that fails on the event types it is given, and passes otherwise.
struct Forbids {
    name: &'static str,
    kinds: Vec<EventType>,
}

impl Invariant for Forbids {
    fn name(&self) -> &'static str {
        self.name
    }

    fn validate(
        &self,
        _previous: &TableState,
        event: &TableEvent,
        _next: &TableState,
    ) -> InvariantResult {
        if self.kinds.contains(&event.event_type) {
            InvariantResult::Fail(format!("{} is forbidden", event.event_type.name()))
        } else {
            InvariantResult::Pass
        }
    }
}

fn rule_event(event_type: EventType) -> TableEvent {
    TableEvent { table_id: TableId(Uuid::new_v4()), version: 1, event_type, payload: vec![] }
}

#[test]
fn invariant_blocks_invalid_transition() {
    let mut engine = InvariantEngine::new();
    engine.register(NoMutationFromCreated);

    let previous = TableState::Created;
    let next = TableState::Mutating;

    let err = engine
        .evaluate(&previous, &rule_event(EventType::SchemaUpdated), &next)
        .unwrap_err();

    assert!(err.to_string().contains("no-mutation-from-created"));
}

#[test]
fn violation_text_names_rule_and_reason() {
    let mut engine = InvariantEngine::new();
    engine.register(NoMutationFromCreated);
    let err = engine
        .evaluate(
            &TableState::Created,
            &rule_event(EventType::SchemaUpdated),
            &TableState::Mutating,
        )
        .unwrap_err();
    assert_eq!(err.invariant, "no-mutation-from-created");
    assert_eq!(err.reason, "cannot mutate table before activation");
    assert_eq!(
        err.to_string(),
        "invariant `no-mutation-from-created` violated: cannot mutate table before activation"
    );
}

#[test]
fn empty_engine_always_passes() {
    let engine: InvariantEngine<NoMutationFromCreated> = InvariantEngine::new();
    assert!(engine
        .evaluate(
            &TableState::Created,
            &rule_event(EventType::SchemaUpdated),
            &TableState::Mutating
        )
        .is_ok());
    let engine: InvariantEngine<Forbids> = InvariantEngine::default();
    assert!(engine
        .evaluate(&TableState::Active, &rule_event(EventType::SnapshotAdded), &TableState::Mutating)
        .is_ok());
}

#[test]
fn passing_rules_let_the_transition_through() {
    let mut engine = InvariantEngine::new();
    engine.register(NoMutationFromCreated);
    assert!(engine
        .evaluate(&TableState::Created, &rule_event(EventType::TableCreated), &TableState::Active)
        .is_ok());
}

#[test]
fn evaluation_stops_at_the_first_failure_in_registration_order() {
    let mut engine = InvariantEngine::new();
    engine.register(Forbids { name: "first", kinds: vec![EventType::SnapshotRemoved] });
    engine.register(Forbids {
        name: "second",
        kinds: vec![EventType::SchemaUpdated, EventType::SnapshotRemoved],
    });
    engine.register(Forbids { name: "third", kinds: vec![EventType::SchemaUpdated] });

    let err = engine
        .evaluate(&TableState::Active, &rule_event(EventType::SchemaUpdated), &TableState::Mutating)
        .unwrap_err();
    assert_eq!(err.invariant, "second");
    assert_eq!(err.reason, "SchemaUpdated is forbidden");

    let err = engine
        .evaluate(
            &TableState::Active,
            &rule_event(EventType::SnapshotRemoved),
            &TableState::Mutating,
        )
        .unwrap_err();
    assert_eq!(err.invariant, "first");

    assert!(engine
        .evaluate(&TableState::Active, &rule_event(EventType::SnapshotAdded), &TableState::Mutating)
        .is_ok());
}
