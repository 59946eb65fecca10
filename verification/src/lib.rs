//! Persistence mapping layer for order records kept in a wide-column store.
//!
//! The crate translates between the `Order` domain entity and the store's
//! column-family/column/value model, derives deterministic row keys, and
//! emulates a secondary lookup with a filtered full-table scan.  All logic is
//! verified; the store itself is reached through the `HbaseClient` capability
//! trait, so callers supply a connection and test doubles can stand in for it.

pub mod errors;
pub mod hbase;
pub mod hbase_types;
pub mod hbase_utils;
pub mod orders;
pub mod tables;
pub mod text;
