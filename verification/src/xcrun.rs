//! The `xcrun` tool and its `simctl` subcommand.

pub mod simctl;

use vstd::prelude::*;

verus! {

/// A handle on a resolved `xcrun` executable.
#[derive(Debug, Clone)]
pub struct XcRunInstance {
    /// The path of the executable; locating and running it is a
    /// collaborator's business.
    pub exec_path: String,
}

impl XcRunInstance {
    /// Wraps the path of an `xcrun` executable that a collaborator has
    /// already located.
    pub fn new(exec_path: String) -> (r: XcRunInstance)
        ensures
            r.exec_path@ == exec_path@,
    {
        XcRunInstance { exec_path }
    }

    /// A handle on the `simctl` subcommand of this `xcrun`.
    pub fn simctl(&self) -> (r: simctl::XcRunSimctlInstance)
        ensures
            r.exec_parent == self,
    {
        simctl::XcRunSimctlInstance { exec_parent: self }
    }
}

} // verus!
