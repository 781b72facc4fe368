//! Adapters: the shapes in which outside catalogs report a table's state.

pub mod iceberg;
