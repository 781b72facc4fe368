//! Correctness primitives for a data control plane: an append-only event
//! log, the table lifecycle derived from it, and the classification of drift
//! between that derived lifecycle and what a catalog reports.

pub mod adapters;
pub mod invariants;
pub mod log;
pub mod replay;
pub mod simulate;
pub mod state;
