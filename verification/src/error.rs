//! Errors raised while managing a liveo workspace.

use vstd::prelude::*;

verus! {

/// What went wrong, as a machine-readable category.
#[derive(Clone, Copy, Debug, PartialEq, Eq, Structural)]
pub enum ErrorKind {
    /// A user-supplied name is not a safe SQL identifier.
    InvalidIdentifier,
    /// A track table with the same derived tracking-table name is already registered.
    DuplicateTrackTable,
    /// No registered track table has the given derived tracking-table name.
    NotFound,
    /// A persisted catalog row could not be reconstructed into a track table.
    CatalogCorrupt,
    /// The database connection reported a failure.
    DatabaseError,
}

/// An error when managing the liveo workspace: the action that was underway
/// and the category of the failure.
#[derive(Debug)]
pub struct Error {
    pub when: String,
    pub kind: ErrorKind,
}

impl Error {
    pub fn new(when: &'static str, kind: ErrorKind) -> (e: Error)
        ensures
            e.when@ == when@,
            e.kind == kind,
    {
        Error { when: String::from_str(when), kind }
    }

    /// A human-readable account of the failure.
    pub fn message(&self) -> (m: String)
        ensures
            m@ == self.when@,
    {
        self.when.clone()
    }
}

} // verus!
