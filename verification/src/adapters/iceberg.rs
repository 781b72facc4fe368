//! The read-only view of an Iceberg table: identity and evolution, nothing
//! about manifests, files or partitions.

use vstd::prelude::*;
use uuid::Uuid;

verus! {

/// One schema of a table, by its identifier.
#[derive(Debug, Clone, Copy, PartialEq, Eq, Structural)]
pub struct IcebergSchema {
    pub schema_id: i32,
}

/// The part of Iceberg table metadata that matters here.
#[derive(Debug)]
pub struct IcebergMetadata {
    pub table_uuid: Uuid,
    pub current_snapshot_id: Option<i64>,
    pub schemas: Vec<IcebergSchema>,
    pub current_schema_id: i32,
}

/// Normalized state of an Iceberg table, as drift detection reads it.
#[derive(Debug, PartialEq, Eq)]
pub struct IcebergTableState {
    pub table_uuid: Uuid,
    pub current_snapshot_id: Option<i64>,
    pub current_schema_id: i32,
}

impl IcebergMetadata {
    /// The normalized state: identity, current snapshot and current schema,
    /// each as the metadata gives it.
    pub fn into_table_state(self) -> (state: IcebergTableState)
        ensures
            state.table_uuid == self.table_uuid,
            state.current_snapshot_id == self.current_snapshot_id,
            state.current_schema_id == self.current_schema_id,
    {
        IcebergTableState {
            table_uuid: self.table_uuid,
            current_snapshot_id: self.current_snapshot_id,
            current_schema_id: self.current_schema_id,
        }
    }
}

} // verus!
