//! Common shape of every classified command output.

pub mod types;

use vstd::prelude::*;
use crate::error::Error;

verus! {

/// Common operations implemented by every command output type. The
/// success of a command is a semantic question, so each output type
/// states in [`PublicCommandOutput::spec_successful`] which of its
/// variants count as expected success.
pub trait PublicCommandOutput: Sized {
    /// What the command's successful output is, where one applies.
    type PrimarySuccess;

    /// Which outputs count as an expected success.
    spec fn spec_successful(&self) -> bool;

    /// Returns the primary success value, or [`Error::OutputErrored`]
    /// exactly when this output is not a success.
    fn success(&self) -> (r: Result<&Self::PrimarySuccess, Error>)
        ensures
            r is Ok <==> self.spec_successful(),
    ;

    /// Did the command exit with an expected success case?
    fn successful(&self) -> (r: bool)
        ensures
            r == self.spec_successful(),
    {
        self.success().is_ok()
    }

    fn failed(&self) -> (r: bool)
        ensures
            r == !self.spec_successful(),
    {
        !self.successful()
    }
}

} // verus!
