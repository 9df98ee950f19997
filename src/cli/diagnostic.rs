//! The `diagnostic` command.

use vstd::prelude::*;

verus! {

/// Checks that the version-control tool and the configuration are usable.
pub struct Diagnostic {}

impl Diagnostic {
    pub fn new() -> (r: Diagnostic) {
        Diagnostic {}
    }
}

} // verus!
