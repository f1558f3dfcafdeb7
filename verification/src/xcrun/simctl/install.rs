//! Classified output of `xcrun simctl install`.

use vstd::prelude::*;
use crate::error::Error;
use crate::shared::PublicCommandOutput;

verus! {

/// Output of an install run. No success shape is recognized yet, so the
/// classification is by the exit status alone.
#[derive(Debug, Clone)]
pub enum InstallOutput {
    SuccessUnImplemented { stdout: String },
    ErrorUnImplemented { stderr: String },
}

impl InstallOutput {
    /// Classifies a completed install: the captured stream is kept
    /// verbatim under the variant that matches the exit status. Total: every
    /// `(success, stream)` pair maps to exactly one variant.
    pub fn from_success_stream(success: bool, string: String) -> (r: InstallOutput)
        ensures
            success ==> r == (InstallOutput::SuccessUnImplemented { stdout: string }),
            !success ==> r == (InstallOutput::ErrorUnImplemented { stderr: string }),
    {
        if success {
            InstallOutput::SuccessUnImplemented { stdout: string }
        } else {
            InstallOutput::ErrorUnImplemented { stderr: string }
        }
    }

    pub fn success_unimplemented(stdout: String) -> (r: InstallOutput)
        ensures
            r == (InstallOutput::SuccessUnImplemented { stdout }),
    {
        InstallOutput::SuccessUnImplemented { stdout }
    }

    pub fn error_unimplemented(stderr: String) -> (r: InstallOutput)
        ensures
            r == (InstallOutput::ErrorUnImplemented { stderr }),
    {
        InstallOutput::ErrorUnImplemented { stderr }
    }

    /// A rendering of this output for error reports.
    pub fn describe(&self) -> (out: String)
        ensures
            out@ == self.spec_describe(),
    {
        let mut out = String::new();
        match self {
            InstallOutput::SuccessUnImplemented { stdout } => {
                out.append("simctl install succeeded: ");
                out.append(stdout.as_str());
            },
            InstallOutput::ErrorUnImplemented { stderr } => {
                out.append("simctl install errored: ");
                out.append(stderr.as_str());
            },
        }
        out
    }

    pub open spec fn spec_describe(&self) -> Seq<char> {
        match self {
            InstallOutput::SuccessUnImplemented { stdout } =>
                "simctl install succeeded: "@ + stdout@,
            InstallOutput::ErrorUnImplemented { stderr } =>
                "simctl install errored: "@ + stderr@,
        }
    }
}

impl PublicCommandOutput for InstallOutput {
    type PrimarySuccess = ();

    open spec fn spec_successful(&self) -> bool {
        self is SuccessUnImplemented
    }

    fn success(&self) -> (r: Result<&(), Error>) {
        match self {
            InstallOutput::SuccessUnImplemented { .. } => Ok(&()),
            InstallOutput::ErrorUnImplemented { .. } => Err(Error::output_errored(self.describe())),
        }
    }
}

} // verus!
