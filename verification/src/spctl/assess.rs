//! Gatekeeper assessment: the assessment type and the classified output.

use vstd::prelude::*;
use crate::error::Error;
use crate::shared::PublicCommandOutput;

verus! {

/// What kind of artifact `spctl` is asked to assess.
#[derive(Debug, Clone, Copy, PartialEq, Eq, Structural)]
pub enum AssessType {
    App,
    DiskImage,
    InstallerPackage,
}

impl AssessType {
    /// The value passed to the tool's `--type` flag.
    pub fn into_type(self) -> (r: &'static str)
        ensures
            self == AssessType::App ==> r@ == "exec"@,
            self == AssessType::DiskImage ==> r@ == "open"@,
            self == AssessType::InstallerPackage ==> r@ == "install"@,
    {
        match self {
            AssessType::App => "exec",
            AssessType::DiskImage => "open",
            AssessType::InstallerPackage => "install",
        }
    }
}

/// Output of an assessment run. No success shape is recognized yet, so
/// the classification is by the exit status alone.
#[derive(Debug, Clone)]
pub enum AssessOutput {
    ErrorUnImplemented { stderr: String },
    SuccessUnImplemented { stdout: String },
}

impl AssessOutput {
    /// Classifies a completed assessment: the captured stream is kept
    /// verbatim under the variant that matches the exit status. Total: every
    /// `(success, stream)` pair maps to exactly one variant.
    pub fn from_success_stream(success: bool, string: String) -> (r: AssessOutput)
        ensures
            success ==> r == (AssessOutput::SuccessUnImplemented { stdout: string }),
            !success ==> r == (AssessOutput::ErrorUnImplemented { stderr: string }),
    {
        if success {
            AssessOutput::SuccessUnImplemented { stdout: string }
        } else {
            AssessOutput::ErrorUnImplemented { stderr: string }
        }
    }

    pub fn success_unimplemented(stdout: String) -> (r: AssessOutput)
        ensures
            r == (AssessOutput::SuccessUnImplemented { stdout }),
    {
        AssessOutput::SuccessUnImplemented { stdout }
    }

    pub fn error_unimplemented(stderr: String) -> (r: AssessOutput)
        ensures
            r == (AssessOutput::ErrorUnImplemented { stderr }),
    {
        AssessOutput::ErrorUnImplemented { stderr }
    }

    /// A rendering of this output for error reports.
    pub fn describe(&self) -> (out: String)
        ensures
            out@ == self.spec_describe(),
    {
        let mut out = String::new();
        match self {
            AssessOutput::SuccessUnImplemented { stdout } => {
                out.append("spctl assess succeeded: ");
                out.append(stdout.as_str());
            },
            AssessOutput::ErrorUnImplemented { stderr } => {
                out.append("spctl assess errored: ");
                out.append(stderr.as_str());
            },
        }
        out
    }

    pub open spec fn spec_describe(&self) -> Seq<char> {
        match self {
            AssessOutput::SuccessUnImplemented { stdout } =>
                "spctl assess succeeded: "@ + stdout@,
            AssessOutput::ErrorUnImplemented { stderr } =>
                "spctl assess errored: "@ + stderr@,
        }
    }
}

impl PublicCommandOutput for AssessOutput {
    type PrimarySuccess = ();

    open spec fn spec_successful(&self) -> bool {
        self is SuccessUnImplemented
    }

    fn success(&self) -> (r: Result<&(), Error>) {
        match self {
            AssessOutput::SuccessUnImplemented { .. } => Ok(&()),
            AssessOutput::ErrorUnImplemented { .. } => Err(Error::output_errored(self.describe())),
        }
    }
}

} // verus!
