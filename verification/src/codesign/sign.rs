//! Classified output of `codesign -s`.

use vstd::prelude::*;
use crate::error::Error;
use crate::shared::PublicCommandOutput;

verus! {

/// Output of a signing run. No success shape is recognized yet, so the
/// classification is by the exit status alone.
#[derive(Debug, Clone)]
pub enum SignOutput {
    ErrorUnImplemented { stderr: String },
    SuccessUnImplemented { stdout: String },
}

impl SignOutput {
    /// Classifies a completed signing run: the captured stream is kept
    /// verbatim under the variant that matches the exit status. Total: every
    /// `(success, stream)` pair maps to exactly one variant.
    pub fn from_success_stream(success: bool, string: String) -> (r: SignOutput)
        ensures
            success ==> r == (SignOutput::SuccessUnImplemented { stdout: string }),
            !success ==> r == (SignOutput::ErrorUnImplemented { stderr: string }),
    {
        if success {
            SignOutput::SuccessUnImplemented { stdout: string }
        } else {
            SignOutput::ErrorUnImplemented { stderr: string }
        }
    }

    pub fn success_unimplemented(stdout: String) -> (r: SignOutput)
        ensures
            r == (SignOutput::SuccessUnImplemented { stdout }),
    {
        SignOutput::SuccessUnImplemented { stdout }
    }

    pub fn error_unimplemented(stderr: String) -> (r: SignOutput)
        ensures
            r == (SignOutput::ErrorUnImplemented { stderr }),
    {
        SignOutput::ErrorUnImplemented { stderr }
    }

    /// A rendering of this output for error reports.
    pub fn describe(&self) -> (out: String)
        ensures
            out@ == self.spec_describe(),
    {
        let mut out = String::new();
        match self {
            SignOutput::SuccessUnImplemented { stdout } => {
                out.append("codesign sign succeeded: ");
                out.append(stdout.as_str());
            },
            SignOutput::ErrorUnImplemented { stderr } => {
                out.append("codesign sign errored: ");
                out.append(stderr.as_str());
            },
        }
        out
    }

    pub open spec fn spec_describe(&self) -> Seq<char> {
        match self {
            SignOutput::SuccessUnImplemented { stdout } =>
                "codesign sign succeeded: "@ + stdout@,
            SignOutput::ErrorUnImplemented { stderr } =>
                "codesign sign errored: "@ + stderr@,
        }
    }
}

impl PublicCommandOutput for SignOutput {
    type PrimarySuccess = ();

    open spec fn spec_successful(&self) -> bool {
        self is SuccessUnImplemented
    }

    fn success(&self) -> (r: Result<&(), Error>) {
        match self {
            SignOutput::SuccessUnImplemented { .. } => Ok(&()),
            SignOutput::ErrorUnImplemented { .. } => Err(Error::output_errored(self.describe())),
        }
    }
}

} // verus!
