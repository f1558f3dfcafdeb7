//! Classified output of `ios-deploy --bundle`.

use vstd::prelude::*;
use crate::error::Error;
use crate::shared::PublicCommandOutput;

verus! {

/// Output of a bundle upload. No success shape is recognized yet, so the
/// classification is by the exit status alone.
#[derive(Debug, Clone)]
pub enum UploadOutput {
    ErrorUnImplemented { stderr: String },
    SuccessUnImplemented { stdout: String },
}

impl UploadOutput {
    /// Classifies a completed upload: the captured stream is kept verbatim
    /// under the variant that matches the exit status. Total: every
    /// `(success, stream)` pair maps to exactly one variant.
    pub fn from_success_stream(success: bool, string: String) -> (r: UploadOutput)
        ensures
            success ==> r == (UploadOutput::SuccessUnImplemented { stdout: string }),
            !success ==> r == (UploadOutput::ErrorUnImplemented { stderr: string }),
    {
        if success {
            UploadOutput::SuccessUnImplemented { stdout: string }
        } else {
            UploadOutput::ErrorUnImplemented { stderr: string }
        }
    }

    pub fn success_unimplemented(stdout: String) -> (r: UploadOutput)
        ensures
            r == (UploadOutput::SuccessUnImplemented { stdout }),
    {
        UploadOutput::SuccessUnImplemented { stdout }
    }

    pub fn error_unimplemented(stderr: String) -> (r: UploadOutput)
        ensures
            r == (UploadOutput::ErrorUnImplemented { stderr }),
    {
        UploadOutput::ErrorUnImplemented { stderr }
    }

    /// A rendering of this output for error reports.
    pub fn describe(&self) -> (out: String)
        ensures
            out@ == self.spec_describe(),
    {
        let mut out = String::new();
        match self {
            UploadOutput::SuccessUnImplemented { stdout } => {
                out.append("ios-deploy upload succeeded: ");
                out.append(stdout.as_str());
            },
            UploadOutput::ErrorUnImplemented { stderr } => {
                out.append("ios-deploy upload errored: ");
                out.append(stderr.as_str());
            },
        }
        out
    }

    pub open spec fn spec_describe(&self) -> Seq<char> {
        match self {
            UploadOutput::SuccessUnImplemented { stdout } =>
                "ios-deploy upload succeeded: "@ + stdout@,
            UploadOutput::ErrorUnImplemented { stderr } =>
                "ios-deploy upload errored: "@ + stderr@,
        }
    }
}

impl PublicCommandOutput for UploadOutput {
    type PrimarySuccess = ();

    open spec fn spec_successful(&self) -> bool {
        self is SuccessUnImplemented
    }

    fn success(&self) -> (r: Result<&(), Error>) {
        match self {
            UploadOutput::SuccessUnImplemented { .. } => Ok(&()),
            UploadOutput::ErrorUnImplemented { .. } => Err(Error::output_errored(self.describe())),
        }
    }
}

} // verus!
