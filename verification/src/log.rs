//! The versioned, append-only metadata log.

use vstd::prelude::*;
use vstd::string::StringExecFns;
use uuid::Uuid;

pub mod store;

pub use store::{InMemoryLogStore, MetadataLogStore};

verus! {

/// Logical version of a table: 1 for the first event, then gap-free.
pub type Version = u64;

/// The identifier type of the `uuid` crate. Nothing in this library looks
/// inside one: it is carried through and compared as a whole.
#[verifier::external_type_specification]
#[verifier::external_body]
pub struct ExUuid(uuid::Uuid);

/// Stable identifier for a table.
#[derive(Debug, Clone, Copy, PartialEq, Eq, Hash)]
pub struct TableId(pub Uuid);

/// The closed set of things that can happen to a table.
#[derive(Debug, Clone, Copy, PartialEq, Eq, Structural)]
pub enum EventType {
    TableCreated,
    SchemaUpdated,
    SnapshotAdded,
    SnapshotRemoved,
}

/// One entry of the log. The payload is opaque to this library.
#[derive(Debug)]
pub struct TableEvent {
    pub table_id: TableId,
    pub version: Version,
    pub event_type: EventType,
    pub payload: Vec<u8>,
}

/// What an event is, mathematically: its fields, the payload as a sequence.
pub struct TableEventView {
    pub table_id: TableId,
    pub version: Version,
    pub event_type: EventType,
    pub payload: Seq<u8>,
}

impl View for TableEvent {
    type V = TableEventView;

    open spec fn view(&self) -> TableEventView {
        TableEventView {
            table_id: self.table_id,
            version: self.version,
            event_type: self.event_type,
            payload: self.payload@,
        }
    }
}

impl Clone for TableEvent {
    fn clone(&self) -> (r: Self)
        ensures
            r@ == self@,
    {
        TableEvent {
            table_id: TableId(self.table_id.0),
            version: self.version,
            event_type: self.event_type,
            payload: self.payload.clone(),
        }
    }
}

/// Why the log refused an event.
#[derive(Debug, Clone, Copy, PartialEq, Eq, Structural)]
pub enum LogError {
    /// The event's version (`actual`) is not the one the log is waiting for
    /// (`expected`).
    VersionConflict { expected: Version, actual: Version },
}

/// The character of one decimal digit.
pub open spec fn digit_char(digit: nat) -> char {
    if digit == 0 {
        '0'
    } else if digit == 1 {
        '1'
    } else if digit == 2 {
        '2'
    } else if digit == 3 {
        '3'
    } else if digit == 4 {
        '4'
    } else if digit == 5 {
        '5'
    } else if digit == 6 {
        '6'
    } else if digit == 7 {
        '7'
    } else if digit == 8 {
        '8'
    } else {
        '9'
    }
}

/// A number in decimal: most significant digit first, no leading zero,
/// and `0` for zero.
pub open spec fn decimal(n: nat) -> Seq<char>
    decreases n,
{
    if n < 10 {
        seq![digit_char(n)]
    } else {
        decimal(n / 10).push(digit_char(n % 10))
    }
}

/// The text of a version conflict.
pub open spec fn conflict_text(expected: Version, actual: Version) -> Seq<char> {
    "version conflict: expected "@ + decimal(expected as nat) + ", got "@ + decimal(actual as nat)
}

/// One decimal digit as a string.
fn digit_str(digit: u64) -> (text: &'static str)
    requires
        digit < 10,
    ensures
        text@ == seq![digit_char(digit as nat)],
{
    proof {
        reveal_strlit("0");
        reveal_strlit("1");
        reveal_strlit("2");
        reveal_strlit("3");
        reveal_strlit("4");
        reveal_strlit("5");
        reveal_strlit("6");
        reveal_strlit("7");
        reveal_strlit("8");
        reveal_strlit("9");
    }
    let text = if digit == 0 {
        "0"
    } else if digit == 1 {
        "1"
    } else if digit == 2 {
        "2"
    } else if digit == 3 {
        "3"
    } else if digit == 4 {
        "4"
    } else if digit == 5 {
        "5"
    } else if digit == 6 {
        "6"
    } else if digit == 7 {
        "7"
    } else if digit == 8 {
        "8"
    } else {
        "9"
    };
    assert(text@ =~= seq![digit_char(digit as nat)]);
    text
}

/// A version in decimal.
pub fn version_text(version: Version) -> (text: String)
    ensures
        text@ == decimal(version as nat),
    decreases version,
{
    if version < 10 {
        String::from_str(digit_str(version))
    } else {
        let text = version_text(version / 10).concat(digit_str(version % 10));
        assert(text@ =~= decimal(version as nat));
        text
    }
}

impl LogError {
    /// The error as one line of text, with both versions in decimal.
    pub fn to_string(&self) -> (text: String)
        ensures
            match *self {
                LogError::VersionConflict { expected, actual } => text@ == conflict_text(
                    expected,
                    actual,
                ),
            },
    {
        match self {
            LogError::VersionConflict { expected, actual } => String::from_str(
                "version conflict: expected ",
            ).concat(version_text(*expected).as_str()).concat(", got ").concat(
                version_text(*actual).as_str(),
            ),
        }
    }
}

/// The events of a vector, each by its view, in the same order.
pub open spec fn event_views(events: Seq<TableEvent>) -> Seq<TableEventView> {
    Seq::new(events.len(), |i: int| events[i]@)
}

/// The versions run 1, 2, 3, ... with no gap and no repeat.
pub open spec fn sequential_versions(events: Seq<TableEventView>) -> bool {
    forall|i: int| 0 <= i < events.len() ==> (#[trigger] events[i]).version == i + 1
}

/// The version a log stands at: 0 while empty, else that of its last event.
pub open spec fn version_of(events: Seq<TableEventView>) -> int {
    if events.len() == 0 {
        0
    } else {
        events.last().version as int
    }
}

/// An event is accepted exactly when it carries the next version.
pub open spec fn accepts(events: Seq<TableEventView>, event: TableEventView) -> bool {
    event.version == version_of(events) + 1
}

/// The log after one attempt to append: one event longer if the event was
/// accepted, untouched if not.
pub open spec fn append_step(events: Seq<TableEventView>, event: TableEventView) -> Seq<
    TableEventView,
> {
    if accepts(events, event) {
        events.push(event)
    } else {
        events
    }
}

/// What one attempt to append answers.
pub open spec fn append_outcome(events: Seq<TableEventView>, event: TableEventView) -> Result<
    (),
    LogError,
> {
    if accepts(events, event) {
        Ok(())
    } else {
        Err(
            LogError::VersionConflict {
                expected: (version_of(events) + 1) as u64,
                actual: event.version,
            },
        )
    }
}

/// The log after attempting to append each of `incoming` in turn.
pub open spec fn append_all(events: Seq<TableEventView>, incoming: Seq<TableEventView>) -> Seq<
    TableEventView,
>
    decreases incoming.len(),
{
    if incoming.len() == 0 {
        events
    } else {
        append_step(append_all(events, incoming.drop_last()), incoming.last())
    }
}

/// A log with sequential versions stands at the version that equals its
/// length.
pub proof fn lemma_version_is_length(events: Seq<TableEventView>)
    requires
        sequential_versions(events),
    ensures
        version_of(events) == events.len(),
{
}

/// Appending to an empty log, one by one, events whose versions run from 1
/// without a gap accepts every one of them and leaves exactly those events,
/// in the order given: nothing lost, repeated or moved.
pub proof fn lemma_append_all_keeps_order(incoming: Seq<TableEventView>)
    requires
        sequential_versions(incoming),
    ensures
        append_all(Seq::empty(), incoming) == incoming,
        forall|k: int|
            0 <= k < incoming.len() ==> #[trigger] accepts(
                append_all(Seq::empty(), incoming.take(k)),
                incoming[k],
            ),
    decreases incoming.len(),
{
    if incoming.len() > 0 {
        let front = incoming.drop_last();
        lemma_append_all_keeps_order(front);
        assert(front.push(incoming.last()) == incoming);
        assert forall|k: int| 0 <= k < incoming.len() implies #[trigger] accepts(
            append_all(Seq::empty(), incoming.take(k)),
            incoming[k],
        ) by {
            if k < front.len() {
                assert(front.take(k) == incoming.take(k));
                assert(front[k] == incoming[k]);
            } else {
                assert(incoming.take(k) == front);
            }
        }
    }
}

/// An event that does not carry the next version is refused, and the log
/// after the attempt is the log before it.
pub proof fn lemma_conflict_changes_nothing(events: Seq<TableEventView>, event: TableEventView)
    requires
        event.version != version_of(events) + 1,
    ensures
        append_step(events, event) == events,
        append_outcome(events, event) is Err,
{
}

/// The metadata log: a store, and the log-level operations on it.
pub struct MetadataLog<S: MetadataLogStore> {
    store: S,
}

impl<S: MetadataLogStore> View for MetadataLog<S> {
    type V = Seq<TableEventView>;

    closed spec fn view(&self) -> Seq<TableEventView> {
        self.store.events()
    }
}

impl<S: MetadataLogStore> MetadataLog<S> {
    /// The store underneath keeps its own invariant.
    pub closed spec fn well_formed(&self) -> bool {
        self.store.well_formed()
    }

    /// A well-formed log never shows a gap or a repeated version.
    pub proof fn lemma_versions_sequential(&self)
        requires
            self.well_formed(),
        ensures
            sequential_versions(self@),
    {
        self.store.lemma_versions_sequential();
    }

    /// A log over `store`, holding what the store holds.
    pub fn new(store: S) -> (log: Self)
        requires
            store.well_formed(),
        ensures
            log.well_formed(),
            log@ == store.events(),
    {
        MetadataLog { store }
    }

    /// Appends `event` if it carries the next version; refuses it, leaving
    /// the log as it was, if not. The log must have a next version: it
    /// cannot grow past the largest one.
    pub fn append(&mut self, event: TableEvent) -> (r: Result<(), LogError>)
        requires
            old(self).well_formed(),
            version_of(old(self)@) < u64::MAX,
        ensures
            final(self).well_formed(),
            final(self)@ == append_step(old(self)@, event@),
            r == append_outcome(old(self)@, event@),
            r is Err ==> final(self)@ == old(self)@,
    {
        self.store.append(&event)
    }

    /// All events, oldest first. Their versions run from 1 without a gap.
    pub fn replay(&self) -> (events: Vec<TableEvent>)
        requires
            self.well_formed(),
        ensures
            event_views(events@) == self@,
            sequential_versions(self@),
    {
        proof {
            self.store.lemma_versions_sequential();
        }
        self.store.load().unwrap()
    }

    /// 0 while the log is empty, else the version of its last event, which
    /// is the number of events.
    pub fn current_version(&self) -> (version: Version)
        requires
            self.well_formed(),
        ensures
            version == version_of(self@),
            version == self@.len(),
    {
        proof {
            self.store.lemma_versions_sequential();
            lemma_version_is_length(self@);
        }
        self.store.current_version().unwrap()
    }
}

} // verus!
