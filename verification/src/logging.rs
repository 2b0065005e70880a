//! The logging handle. Initialising the process-wide logger is an effect of
//! the surrounding program, not of this library.

use vstd::prelude::*;

verus! {

/// A handle for the program's logger.
#[derive(Debug)]
pub struct Logger {}

impl Logger {
    /// Creates and returns a new instance of the Logger.
    pub fn new() -> Logger {
        Logger {  }
    }
}

} // verus!
