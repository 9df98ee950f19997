//! The `diff_message` command.

use vstd::prelude::*;

verus! {

/// Compares two branches by commit message, with optional replay and ticket lookup.
pub struct DiffMessage {}

impl DiffMessage {
    pub fn new() -> (r: DiffMessage) {
        DiffMessage {}
    }
}

} // verus!
