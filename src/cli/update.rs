//! The `update` command.

use vstd::prelude::*;

verus! {

/// Refreshes local branches from their remotes.
pub struct Update {}

impl Update {
    pub fn new() -> (r: Update) {
        Update {}
    }
}

} // verus!
