//! The `xcrun simctl` subcommand: simulator control.

pub mod boot;
pub mod install;
pub mod launch;
pub mod list;

use vstd::prelude::*;
use crate::xcrun::XcRunInstance;

verus! {

/// A handle on the `simctl` subcommand of a resolved `xcrun`.
#[derive(Debug, Clone)]
pub struct XcRunSimctlInstance<'src> {
    pub exec_parent: &'src XcRunInstance,
}

} // verus!
