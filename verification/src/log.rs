//! Whether progress is narrated. The printing itself is the surrounding
//! application's work; the switch lives here.

use vstd::prelude::*;

verus! {

/// A switchable narrator for long-running actions.
pub struct Logger {
    pub enabled: bool,
}

impl Logger {
    pub fn new(enabled: bool) -> (r: Logger)
        ensures
            r.enabled == enabled,
    {
        Logger { enabled }
    }
}

} // verus!
