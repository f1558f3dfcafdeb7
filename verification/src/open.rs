//! The `open` tool: opening applications and paths.

pub mod well_known;

use vstd::prelude::*;

verus! {

/// A handle on a resolved `open` executable.
#[derive(Debug, Clone)]
pub struct OpenCLIInstance {
    /// The path of the executable; locating and running it is a
    /// collaborator's business.
    pub exec_path: String,
}

impl OpenCLIInstance {
    /// Wraps the path of an `open` executable that a collaborator has
    /// already located.
    pub fn new(exec_path: String) -> (r: OpenCLIInstance)
        ensures
            r.exec_path@ == exec_path@,
    {
        OpenCLIInstance { exec_path }
    }
}

} // verus!
