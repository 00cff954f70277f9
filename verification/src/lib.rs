//! Change-tracking registry and DDL/trigger generation for Postgres tables.
//!
//! A [`tracktable::TrackTable`] describes one tracking relationship: a source
//! table, the columns to snapshot, and the statement kind (insert, update or
//! delete) to observe. The [`queries`] module synthesizes the DDL that
//! materializes such a definition: a tracking table, a capture trigger
//! function, and the trigger itself. The [`workspace::Workspace`] is the
//! in-memory registry of definitions together with a queue of pending
//! create/update/delete operations; the queue is drained one database
//! transaction per operation by the surrounding application.

pub mod error;
pub mod queries;
pub mod schema;
pub mod tracktable;
pub mod utils;
pub mod workspace;
