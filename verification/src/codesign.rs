//! The `codesign` tool: displaying and creating code signatures.

pub mod display;
pub mod sign;

use vstd::prelude::*;

verus! {

/// A handle on a resolved `codesign` executable.
#[derive(Debug, Clone)]
pub struct CodesignCLIInstance {
    /// The path of the executable; locating and running it is a
    /// collaborator's business.
    pub exec_path: String,
}

impl CodesignCLIInstance {
    /// Wraps the path of a `codesign` executable that a collaborator has
    /// already located.
    pub fn new(exec_path: String) -> (r: CodesignCLIInstance)
        ensures
            r.exec_path@ == exec_path@,
    {
        CodesignCLIInstance { exec_path }
    }

    pub fn get_inner_exec_path(&self) -> (p: &str)
        ensures
            p@ == self.exec_path@,
    {
        self.exec_path.as_str()
    }
}

} // verus!
