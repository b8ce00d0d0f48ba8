//! The renderer that shows how many records there are.

use vstd::prelude::*;
use crate::log_entry::LogEntry;

verus! {

/// Shows the number of records.
#[derive(Clone, Copy, Debug, PartialEq, Eq, Structural)]
pub struct CountOutputStrategy;

impl CountOutputStrategy {
    /// The number of records.
    pub fn output(&self, logs: &Vec<LogEntry>) -> (count: usize)
        ensures
            count == logs@.len(),
    {
        logs.len()
    }
}

} // verus!
