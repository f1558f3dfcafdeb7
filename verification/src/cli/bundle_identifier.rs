//! Arguments that specify a bundle identifier.

use vstd::prelude::*;
use crate::error::Error;

verus! {

#[derive(Debug, Clone)]
pub struct BundleIdentifierArgs {
    pub bundle_id: String,
}

impl BundleIdentifierArgs {
    pub fn resolve(self) -> (r: Result<String, Error>)
        ensures
            match r {
                Ok(id) => id@ == self.bundle_id@,
                Err(_) => false,
            },
    {
        Ok(self.bundle_id)
    }
}

} // verus!
