//! Error values returned by the storage layer's operations.

use vstd::prelude::*;
use vstd::string::StringExecFns;

verus! {

/// ConnectionError is returned when there is an issue connecting to the
/// database.
#[derive(Debug, Clone)]
pub struct ConnectionError(pub String);

impl ConnectionError {
    /// The error's text, as it is reported to the caller.
    pub fn message(&self) -> (s: String)
        ensures
            s@ == self.0@,
    {
        self.0.clone()
    }
}

/// DatabaseError is returned when a database operation fails.
#[derive(Debug, Clone)]
pub struct DatabaseError(pub String);

impl DatabaseError {
    /// The error's text, as it is reported to the caller.
    pub fn message(&self) -> (s: String)
        ensures
            s@ == self.0@,
    {
        self.0.clone()
    }
}

} // verus!
