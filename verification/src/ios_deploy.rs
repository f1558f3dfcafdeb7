//! The `ios-deploy` tool: detecting real devices and uploading bundles.

pub mod detect;
pub mod upload;

use vstd::prelude::*;

verus! {

/// A handle on a resolved `ios-deploy` executable.
#[derive(Debug, Clone)]
pub struct IosDeployCLIInstance {
    /// The path of the executable; locating and running it is a
    /// collaborator's business.
    pub exec_path: String,
}

impl IosDeployCLIInstance {
    /// Wraps the path of an `ios-deploy` executable that a collaborator
    /// has already located.
    pub fn new(exec_path: String) -> (r: IosDeployCLIInstance)
        ensures
            r.exec_path@ == exec_path@,
    {
        IosDeployCLIInstance { exec_path }
    }
}

} // verus!
