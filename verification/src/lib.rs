//! Schema-migration declarations for a SQL-backed application shell.
//!
//! The library owns the migration descriptors handed to the storage layer at
//! startup: their shape, the invariant on their version numbers, and the
//! declarer that produces the fixed list for the current schema.

pub mod migrations;
