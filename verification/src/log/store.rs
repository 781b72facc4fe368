//! The storage contract of the metadata log, and the in-memory store.

use vstd::prelude::*;
use crate::log::{
    append_outcome, append_step, event_views, sequential_versions, version_of, LogError,
    TableEvent, TableEventView, Version,
};

verus! {

/// Storage backend for the metadata log.
///
/// A backend is append-only and ordered: it never reorders, rewrites or
/// drops an event it accepted, and it accepts an event only at the next
/// version. The contracts below say so over `events`, the sequence the
/// backend holds.
pub trait MetadataLogStore: Send + Sync {
    /// The events held, oldest first.
    spec fn events(&self) -> Seq<TableEventView>;

    /// The backend's own invariant.
    spec fn well_formed(&self) -> bool;

    /// Whatever else a backend's invariant says, it keeps the versions
    /// sequential.
    proof fn lemma_versions_sequential(&self)
        requires
            self.well_formed(),
        ensures
            sequential_versions(self.events()),
    ;

    /// Stores `event` after all others if its version is the current version
    /// plus one, and otherwise reports the conflict and stores nothing. A
    /// store that stands at the largest version has no next one, and takes
    /// no further call.
    fn append(&mut self, event: &TableEvent) -> (r: Result<(), LogError>)
        requires
            old(self).well_formed(),
            version_of(old(self).events()) < u64::MAX,
        ensures
            final(self).well_formed(),
            final(self).events() == append_step(old(self).events(), event@),
            r == append_outcome(old(self).events(), event@),
    ;

    /// All events in the order they were appended. Loading changes nothing
    /// and does not fail.
    fn load(&self) -> (r: Result<Vec<TableEvent>, LogError>)
        requires
            self.well_formed(),
        ensures
            r is Ok,
            event_views(r->Ok_0@) == self.events(),
    ;

    /// 0 for an empty store, else the version of the last event. Asking
    /// does not fail.
    fn current_version(&self) -> (r: Result<Version, LogError>)
        requires
            self.well_formed(),
        ensures
            r is Ok,
            r->Ok_0 == version_of(self.events()),
    ;
}

/// A store that keeps its events in memory.
#[derive(Debug)]
pub struct InMemoryLogStore {
    events: Vec<TableEvent>,
}

impl InMemoryLogStore {
    /// An empty store.
    pub fn new() -> (store: Self)
        ensures
            store.well_formed(),
            store.events() == Seq::<TableEventView>::empty(),
    {
        let store = InMemoryLogStore { events: Vec::new() };
        assert(store.events() =~= Seq::<TableEventView>::empty());
        store
    }
}

impl Default for InMemoryLogStore {
    fn default() -> (store: Self)
        ensures
            store.well_formed(),
            store.events() == Seq::<TableEventView>::empty(),
    {
        InMemoryLogStore::new()
    }
}

impl MetadataLogStore for InMemoryLogStore {
    closed spec fn events(&self) -> Seq<TableEventView> {
        event_views(self.events@)
    }

    closed spec fn well_formed(&self) -> bool {
        sequential_versions(event_views(self.events@))
    }

    proof fn lemma_versions_sequential(&self) {
    }

    fn append(&mut self, event: &TableEvent) -> (r: Result<(), LogError>) {
        let n = self.events.len();
        let ghost before = event_views(self.events@);
        let expected: Version = if n == 0 {
            1
        } else {
            assert(before[n - 1].version == n);
            self.events[n - 1].version + 1
        };
        if event.version != expected {
            return Err(LogError::VersionConflict { expected, actual: event.version });
        }
        self.events.push(event.clone());
        assert(event_views(self.events@) =~= before.push(event@));
        Ok(())
    }

    fn load(&self) -> (r: Result<Vec<TableEvent>, LogError>) {
        let mut out: Vec<TableEvent> = Vec::new();
        let mut i: usize = 0;
        while i < self.events.len()
            invariant
                i <= self.events@.len(),
                out@.len() == i,
                forall|j: int| 0 <= j < i ==> (#[trigger] out@[j])@ == self.events@[j]@,
            decreases self.events@.len() - i,
        {
            out.push(self.events[i].clone());
            i += 1;
        }
        assert(event_views(out@) =~= event_views(self.events@));
        Ok(out)
    }

    fn current_version(&self) -> (r: Result<Version, LogError>) {
        let n = self.events.len();
        if n == 0 {
            Ok(0)
        } else {
            assert(event_views(self.events@).last() == self.events@[n - 1]@);
            Ok(self.events[n - 1].version)
        }
    }
}

} // verus!
