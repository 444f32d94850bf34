//! A plain model of a database-driver error, as the repository boundary
//! sees it: enough to decide between a uniqueness conflict, a missing row
//! and everything else.

use vstd::prelude::*;

verus! {

/// What a failed database call reports.
#[derive(PartialEq, Eq, Debug)]
pub enum DbError {
    /// The database rejected a statement. `unique_violation` says whether a
    /// uniqueness constraint was hit; `constraint` is the constraint's name
    /// if the driver reported one.
    Database { unique_violation: bool, constraint: Option<String> },
    /// A statement that was to return a row returned none.
    RowNotFound,
    /// Anything else, with a human-readable message.
    Other(String),
}

/// The constraint name reported by a database error, or the empty string
/// when the driver reported none.
pub open spec fn spec_constraint_or_default(c: Option<String>) -> Seq<char> {
    match c {
        Some(s) => s@,
        None => ""@,
    }
}

} // verus!
