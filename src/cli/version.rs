//! The `version` command.

use vstd::prelude::*;

verus! {

/// Prints the version of the tool.
pub struct Version {}

impl Version {
    pub fn new() -> (r: Version) {
        Version {}
    }
}

} // verus!
