//! The `spctl` tool: Gatekeeper assessment.

pub mod assess;

use vstd::prelude::*;

verus! {

/// A handle on a resolved `spctl` executable.
#[derive(Debug, Clone)]
pub struct SpctlCLIInstance {
    /// The path of the executable; locating and running it is a
    /// collaborator's business.
    pub exec_path: String,
}

impl SpctlCLIInstance {
    /// Wraps the path of an `spctl` executable that a collaborator has
    /// already located.
    pub fn new(exec_path: String) -> (r: SpctlCLIInstance)
        ensures
            r.exec_path@ == exec_path@,
    {
        SpctlCLIInstance { exec_path }
    }
}

} // verus!
