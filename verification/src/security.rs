//! The `security` tool: finding signing certificates.

pub mod find_certificate;

use vstd::prelude::*;

verus! {

/// A handle on a resolved `security` executable.
#[derive(Debug, Clone)]
pub struct SecurityCLIInstance {
    /// The path of the executable; locating and running it is a
    /// collaborator's business.
    pub exec_path: String,
}

impl SecurityCLIInstance {
    /// Wraps the path of a `security` executable that a collaborator has
    /// already located.
    pub fn new(exec_path: String) -> (r: SecurityCLIInstance)
        ensures
            r.exec_path@ == exec_path@,
    {
        SecurityCLIInstance { exec_path }
    }
}

} // verus!
