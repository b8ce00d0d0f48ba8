//! The renderer that shows the records as one compact JSON array.

use vstd::prelude::*;

verus! {

/// Shows the whole sequence as one compact JSON array.
#[derive(Clone, Copy, Debug, PartialEq, Eq, Structural)]
pub struct JsonOutputStrategy;

} // verus!
