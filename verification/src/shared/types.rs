//! Shared value types.

use vstd::prelude::*;

verus! {

/// A path that points at a `.app` bundle directory. Exists for type
/// safety: checking that the path exists on disk is the business of the
/// collaborator that constructs the value.
#[derive(Debug, Clone)]
pub struct AppDirectory(pub String);

impl AppDirectory {
    /// Wraps a path a collaborator has already validated.
    pub fn new_unchecked(path: String) -> (r: AppDirectory)
        ensures
            r.0@ == path@,
    {
        AppDirectory(path)
    }

    pub fn get(&self) -> (p: &str)
        ensures
            p@ == self.0@,
    {
        self.0.as_str()
    }
}

} // verus!
