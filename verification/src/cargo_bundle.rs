//! The `cargo bundle` tool.

use vstd::prelude::*;

verus! {

/// A handle on a resolved `cargo-bundle` executable.
#[derive(Debug, Clone)]
pub struct CargoBundleInstance {
    /// The path of the cargo executable; locating and running it is a
    /// collaborator's business.
    pub cargo_path: String,
}

impl CargoBundleInstance {
    /// Wraps the path of a cargo executable that a collaborator has
    /// already located.
    pub fn new(cargo_path: String) -> (r: CargoBundleInstance)
        ensures
            r.cargo_path@ == cargo_path@,
    {
        CargoBundleInstance { cargo_path }
    }
}

} // verus!
