//! Applications at well-known locations.

use vstd::prelude::*;

verus! {

/// An application this tooling knows the location of.
#[derive(Debug, Clone, Copy, PartialEq, Eq, Structural)]
pub enum WellKnown {
    /// The simulator application inside the Xcode bundle.
    Simulator,
    /// The Xcode application itself.
    Xcode,
}

impl WellKnown {
    /// The hard-coded path of this application. Whether anything exists
    /// there is for the collaborator that opens it to check.
    pub fn get_path(&self) -> (p: &'static str)
        ensures
            *self is Simulator ==> p@
                == "/Applications/Xcode.app/Contents/Developer/Applications/Simulator.app"@,
            *self is Xcode ==> p@ == "/Applications/Xcode.app"@,
    {
        match self {
            WellKnown::Simulator =>
                "/Applications/Xcode.app/Contents/Developer/Applications/Simulator.app",
            WellKnown::Xcode => "/Applications/Xcode.app",
        }
    }
}

} // verus!
