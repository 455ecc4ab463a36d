//! A verified core for a manga-collection viewer.
//!
//! The library models the shared inventory table and its enrichment
//! pipeline: snapshotting the entries that still lack remote metadata,
//! and merging each fetch outcome back into the table atomically, one
//! entry at a time, without disturbing user-owned fields.

pub mod api;
pub mod enrich;
pub mod inventory;
