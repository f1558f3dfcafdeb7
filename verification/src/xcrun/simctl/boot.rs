//! Classified output of `xcrun simctl boot`, including the recognized
//! error shapes of the tool's stderr.

use vstd::prelude::*;
use crate::error::Error;
use crate::shared::PublicCommandOutput;
use crate::text::{
    skip_ws, match_tag, find_char, digit_run_end,
    skip_ws_at, eat_tag, find_char_at, digit_run_at, str_to_chars,
};

verus! {

/// Output of a boot run.
#[derive(Debug, Clone)]
pub enum BootOutput {
    /// The simulator was already booted. Not considered an error, since
    /// the device is in the wanted state.
    AlreadyBooted,
    SuccessUnImplemented { stdout: String },
    ErrorUnImplemented { stderr: String },
    /// The simulator host service failed to respond; a known cache
    /// problem with a known remedy.
    ErrorLaunchDFailed { stderr: String },
}

/// The shared preamble of the recognized boot error messages: the error
/// banner, a parenthesized domain, and a numeric code. Yields the
/// position right after `):` with surrounding whitespace skipped.
pub open spec fn spec_boot_error_preamble(s: Seq<char>) -> Option<int> {
    let j0 = skip_ws(s, 0);
    if match_tag(s, j0, "An error was encountered processing the command"@) {
        let j1 = skip_ws(s, j0 + "An error was encountered processing the command"@.len());
        if match_tag(s, j1, "(domain="@) {
            let jc = find_char(s, j1 + "(domain="@.len(), ',');
            if jc < s.len() {
                let j2 = skip_ws(s, jc + 1);
                if match_tag(s, j2, "code="@) {
                    let j3 = skip_ws(s, j2 + "code="@.len());
                    let j4 = digit_run_end(s, j3);
                    if j4 > j3 {
                        let j5 = skip_ws(s, j4);
                        if match_tag(s, j5, "):"@) {
                            Some(skip_ws(s, j5 + "):"@.len()))
                        } else {
                            None
                        }
                    } else {
                        None
                    }
                } else {
                    None
                }
            } else {
                None
            }
        } else {
            None
        }
    } else {
        None
    }
}

/// The stderr of a boot attempt against an already-booted device.
pub open spec fn spec_already_booted(s: Seq<char>) -> bool {
    match spec_boot_error_preamble(s) {
        Some(j) => {
            let t = "Unable to boot device in current state: Booted"@;
            match_tag(s, j, t) && skip_ws(s, j + t.len()) == s.len()
        },
        None => false,
    }
}

/// The stderr of a boot attempt that found the simulator host service
/// unresponsive.
pub open spec fn spec_launchd_failed(s: Seq<char>) -> bool {
    match spec_boot_error_preamble(s) {
        Some(j) => match_tag(s, j, "launchd failed to respond."@),
        None => false,
    }
}

/// What classifying a failed boot yields: the two recognized error
/// shapes, or the stderr kept verbatim.
pub open spec fn spec_classify_boot_error(stderr: String) -> BootOutput {
    if spec_already_booted(stderr@) {
        BootOutput::AlreadyBooted
    } else if spec_launchd_failed(stderr@) {
        BootOutput::ErrorLaunchDFailed { stderr }
    } else {
        BootOutput::ErrorUnImplemented { stderr }
    }
}

fn boot_error_preamble(s: &Vec<char>) -> (r: Option<usize>)
    ensures
        match r {
            Some(j) => spec_boot_error_preamble(s@) == Some(j as int) && j <= s.len(),
            None => spec_boot_error_preamble(s@) is None,
        },
{
    let j0 = skip_ws_at(s, 0);
    let ja = match eat_tag(s, j0, "An error was encountered processing the command") {
        Some(j) => j,
        None => { return None; },
    };
    let j1 = skip_ws_at(s, ja);
    let jd = match eat_tag(s, j1, "(domain=") {
        Some(j) => j,
        None => { return None; },
    };
    let jc = find_char_at(s, jd, ',');
    if jc == s.len() {
        return None;
    }
    let j2 = skip_ws_at(s, jc + 1);
    let je = match eat_tag(s, j2, "code=") {
        Some(j) => j,
        None => { return None; },
    };
    let j3 = skip_ws_at(s, je);
    let j4 = digit_run_at(s, j3);
    if j4 == j3 {
        return None;
    }
    let j5 = skip_ws_at(s, j4);
    match eat_tag(s, j5, "):") {
        Some(j6) => Some(skip_ws_at(s, j6)),
        None => None,
    }
}

impl BootOutput {
    /// Classifies a completed boot. On success the stdout is kept
    /// verbatim; on failure the stderr is matched against the recognized
    /// error shapes and otherwise kept verbatim. Total: every
    /// `(success, stream)` pair maps to exactly one variant.
    pub fn from_success_stream(success: bool, string: String) -> (r: BootOutput)
        ensures
            success ==> r == (BootOutput::SuccessUnImplemented { stdout: string }),
            !success ==> r == spec_classify_boot_error(string),
    {
        if success {
            BootOutput::SuccessUnImplemented { stdout: string }
        } else {
            let s = str_to_chars(string.as_str());
            match boot_error_preamble(&s) {
                Some(j) => {
                    if let Some(j2) = eat_tag(&s, j, "Unable to boot device in current state: Booted") {
                        let j3 = skip_ws_at(&s, j2);
                        if j3 == s.len() {
                            return BootOutput::AlreadyBooted;
                        }
                    }
                    if eat_tag(&s, j, "launchd failed to respond.").is_some() {
                        BootOutput::ErrorLaunchDFailed { stderr: string }
                    } else {
                        BootOutput::ErrorUnImplemented { stderr: string }
                    }
                },
                None => BootOutput::ErrorUnImplemented { stderr: string },
            }
        }
    }

    pub fn success_unimplemented(stdout: String) -> (r: BootOutput)
        ensures
            r == (BootOutput::SuccessUnImplemented { stdout }),
    {
        BootOutput::SuccessUnImplemented { stdout }
    }

    pub fn error_unimplemented(stderr: String) -> (r: BootOutput)
        ensures
            r == (BootOutput::ErrorUnImplemented { stderr }),
    {
        BootOutput::ErrorUnImplemented { stderr }
    }

    /// A rendering of this output for error reports.
    pub fn describe(&self) -> (out: String)
        ensures
            out@ == self.spec_describe(),
    {
        let mut out = String::new();
        match self {
            BootOutput::AlreadyBooted => {
                out.append("simctl boot: the simulator was already booted");
            },
            BootOutput::SuccessUnImplemented { stdout } => {
                out.append("simctl boot succeeded: ");
                out.append(stdout.as_str());
            },
            BootOutput::ErrorUnImplemented { stderr } => {
                out.append("simctl boot errored: ");
                out.append(stderr.as_str());
            },
            BootOutput::ErrorLaunchDFailed { stderr } => {
                out.append("simctl boot: launchd failed to respond: ");
                out.append(stderr.as_str());
            },
        }
        out
    }

    pub open spec fn spec_describe(&self) -> Seq<char> {
        match self {
            BootOutput::AlreadyBooted => "simctl boot: the simulator was already booted"@,
            BootOutput::SuccessUnImplemented { stdout } =>
                "simctl boot succeeded: "@ + stdout@,
            BootOutput::ErrorUnImplemented { stderr } =>
                "simctl boot errored: "@ + stderr@,
            BootOutput::ErrorLaunchDFailed { stderr } =>
                "simctl boot: launchd failed to respond: "@ + stderr@,
        }
    }
}

impl PublicCommandOutput for BootOutput {
    type PrimarySuccess = ();

    /// Already booted counts as success: the device is in the wanted
    /// state.
    open spec fn spec_successful(&self) -> bool {
        self is SuccessUnImplemented || self is AlreadyBooted
    }

    fn success(&self) -> (r: Result<&(), Error>) {
        match self {
            BootOutput::SuccessUnImplemented { .. } => Ok(&()),
            BootOutput::AlreadyBooted => Ok(&()),
            BootOutput::ErrorLaunchDFailed { .. } => {
                let mut hint = String::new();
                hint.append("Try running `sudo rm -rf ~/Library/Developer/CoreSimulator/Caches` to fix this issue.");
                Err(Error::output_errored_with_hint(self.describe(), hint))
            },
            BootOutput::ErrorUnImplemented { .. } => Err(Error::output_errored(self.describe())),
        }
    }
}

} // verus!
