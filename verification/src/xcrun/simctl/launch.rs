//! Launch configuration and the classified output of
//! `xcrun simctl launch`.

use vstd::prelude::*;
use crate::error::Error;
use crate::shared::PublicCommandOutput;

verus! {

/// Arguments gathered for a launch, before they are resolved into a
/// [`LaunchConfig`].
#[derive(Debug, Clone)]
pub struct CliLaunchArgs {
    pub console: bool,
    pub bundle_id: String,
    /// Whether to pipe the launched process's console through this one.
    pub piped: bool,
}

impl CliLaunchArgs {
    /// Splits the arguments into the piping choice and the launch
    /// configuration.
    pub fn resolve(self) -> (r: Result<(bool, LaunchConfig), Error>)
        ensures
            match r {
                Ok((piped, config)) => {
                    &&& piped == self.piped
                    &&& config.console == self.console
                    &&& config.bundle_id@ == self.bundle_id@
                },
                Err(_) => false,
            },
    {
        let config = LaunchConfig { console: self.console, bundle_id: self.bundle_id };
        Ok((self.piped, config))
    }
}

/// What a launch should do.
#[derive(Debug, Clone)]
pub struct LaunchConfig {
    pub console: bool,
    pub bundle_id: String,
}

impl LaunchConfig {
    pub fn console(&self) -> (b: bool)
        ensures
            b == self.console,
    {
        self.console
    }

    pub fn bundle_id(&self) -> (r: &str)
        ensures
            r@ == self.bundle_id@,
    {
        self.bundle_id.as_str()
    }
}

/// Output of a launch. No success shape is recognized yet, so the
/// classification is by the exit status alone.
#[derive(Debug, Clone)]
pub enum LaunchOutput {
    ErrorUnImplemented { stderr: String },
    SuccessUnImplemented { stdout: String },
}

impl LaunchOutput {
    /// Classifies a completed launch: the captured stream is kept verbatim
    /// under the variant that matches the exit status. Total: every
    /// `(success, stream)` pair maps to exactly one variant.
    pub fn from_success_stream(success: bool, string: String) -> (r: LaunchOutput)
        ensures
            success ==> r == (LaunchOutput::SuccessUnImplemented { stdout: string }),
            !success ==> r == (LaunchOutput::ErrorUnImplemented { stderr: string }),
    {
        if success {
            LaunchOutput::SuccessUnImplemented { stdout: string }
        } else {
            LaunchOutput::ErrorUnImplemented { stderr: string }
        }
    }

    pub fn success_unimplemented(stdout: String) -> (r: LaunchOutput)
        ensures
            r == (LaunchOutput::SuccessUnImplemented { stdout }),
    {
        LaunchOutput::SuccessUnImplemented { stdout }
    }

    pub fn error_unimplemented(stderr: String) -> (r: LaunchOutput)
        ensures
            r == (LaunchOutput::ErrorUnImplemented { stderr }),
    {
        LaunchOutput::ErrorUnImplemented { stderr }
    }

    /// A rendering of this output for error reports.
    pub fn describe(&self) -> (out: String)
        ensures
            out@ == self.spec_describe(),
    {
        let mut out = String::new();
        match self {
            LaunchOutput::SuccessUnImplemented { stdout } => {
                out.append("simctl launch succeeded: ");
                out.append(stdout.as_str());
            },
            LaunchOutput::ErrorUnImplemented { stderr } => {
                out.append("simctl launch errored: ");
                out.append(stderr.as_str());
            },
        }
        out
    }

    pub open spec fn spec_describe(&self) -> Seq<char> {
        match self {
            LaunchOutput::SuccessUnImplemented { stdout } =>
                "simctl launch succeeded: "@ + stdout@,
            LaunchOutput::ErrorUnImplemented { stderr } =>
                "simctl launch errored: "@ + stderr@,
        }
    }
}

impl PublicCommandOutput for LaunchOutput {
    type PrimarySuccess = ();

    open spec fn spec_successful(&self) -> bool {
        self is SuccessUnImplemented
    }

    fn success(&self) -> (r: Result<&(), Error>) {
        match self {
            LaunchOutput::SuccessUnImplemented { .. } => Ok(&()),
            LaunchOutput::ErrorUnImplemented { .. } => Err(Error::output_errored(self.describe())),
        }
    }
}

} // verus!
