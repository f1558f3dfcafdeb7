//! Arguments that specify a path to a `.app` directory.

use vstd::prelude::*;
use crate::shared::types::AppDirectory;

verus! {

/// Either an explicit path, or the wish to search the working directory.
/// Performing the search is a collaborator's business.
#[derive(Debug)]
pub struct AppPathArgs {
    /// An absolute path to the `.app` directory.
    pub app_path: Option<AppDirectory>,
    /// Search the current directory and its subdirectories for the first
    /// `.app` directory instead.
    pub glob: bool,
}

} // verus!
