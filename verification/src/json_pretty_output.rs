//! The renderer that shows each record as a block of text.

use vstd::prelude::*;
use crate::log_entry::{block_text, LogEntry};

verus! {

/// Shows one block of text for each record.
#[derive(Clone, Copy, Debug, PartialEq, Eq, Structural)]
pub struct JsonPrettyOutputStrategy;

impl JsonPrettyOutputStrategy {
    /// The blocks of the records, one for each, in their order.
    pub fn output(&self, logs: &Vec<LogEntry>) -> (blocks: Vec<String>)
        ensures
            blocks@.len() == logs@.len(),
            forall|i: int| 0 <= i < logs@.len() ==> (#[trigger] blocks@[i])@ == block_text(logs@[i]@),
    {
        let mut blocks: Vec<String> = Vec::new();
        let mut i: usize = 0;
        while i < logs.len()
            invariant
                i <= logs.len(),
                blocks@.len() == i,
                forall|j: int| 0 <= j < i ==> (#[trigger] blocks@[j])@ == block_text(logs@[j]@),
            decreases logs.len() - i,
        {
            blocks.push(logs[i].to_string());
            i += 1;
        }
        blocks
    }
}

} // verus!
