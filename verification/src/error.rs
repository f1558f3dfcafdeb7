//! The library's error type: typed failures with enough context to act on
//! without re-running the external tool.

use vstd::prelude::*;

verus! {

/// An error surfaced to callers of the library.
#[derive(Debug, Clone)]
pub enum Error {
    /// A command output did not hold the expected success case. Carries a
    /// rendering of the offending output and, where one is known, a
    /// remediation hint.
    OutputErrored {
        debug_msg: String,
        help_hint: Option<String>,
    },
    /// A required key was missing while reading a code-signing report.
    SigningPropertyNotFound {
        missing_key: String,
    },
    /// A signing timestamp did not match the expected date format. Carries
    /// the text that failed to parse.
    ParseDateFailed {
        raw: String,
    },
    /// A tool's output did not match the grammar named here. Carries the
    /// raw text.
    OutputParseFailed {
        name: String,
        raw: String,
    },
    /// No device in the listing matched what was asked for.
    NoMatchingDevice {
        msg: String,
    },
    /// An argument combination that the command-line layer should have
    /// prevented.
    InvalidArguments {
        msg: String,
    },
}

impl Error {
    pub fn output_errored(debug_msg: String) -> (e: Error)
        ensures
            e == (Error::OutputErrored { debug_msg, help_hint: None }),
    {
        Error::OutputErrored { debug_msg, help_hint: None }
    }

    pub fn output_errored_with_hint(debug_msg: String, help_hint: String) -> (e: Error)
        ensures
            e == (Error::OutputErrored { debug_msg, help_hint: Some(help_hint) }),
    {
        Error::OutputErrored { debug_msg, help_hint: Some(help_hint) }
    }
}

} // verus!
