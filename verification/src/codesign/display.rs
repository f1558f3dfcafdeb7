//! Classified output of `codesign -d`.

pub mod signed_keys;

use vstd::prelude::*;
use crate::error::Error;
use crate::shared::PublicCommandOutput;
use crate::text::{
    skip_ws, find_char, match_tag,
    skip_ws_at, find_char_at, eat_tag, str_to_chars, chars_range_to_string,
};
use crate::codesign::display::signed_keys::{
    SignedKeys, kv_view, spec_display_entries, spec_signed_keys_ok,
};

verus! {

/// Output of a signature display run.
#[derive(Debug, Clone)]
pub enum DisplayOutput {
    /// The tool reported that the object carries no signature at all.
    /// Considered an error case.
    NotSignedAtAll { path: String },
    /// The key-value report, parsed.
    SignedKeys(SignedKeys),
    SuccessUnimplemented { stdout: String },
    ErrorUnImplemented { stderr: String },
}

/// The unsigned-object report: a path, `: `, and the tool's fixed
/// message. Yields the path.
pub open spec fn spec_not_signed_at_all(s: Seq<char>) -> Option<Seq<char>> {
    let jc = find_char(s, 0, ':');
    if jc + 2 <= s.len() && s[jc + 1] == ' '
        && match_tag(s, skip_ws(s, jc + 2), "code object is not signed at all"@) {
        Some(s.subrange(0, jc))
    } else {
        None
    }
}

impl DisplayOutput {
    /// Classifies a completed display run. A failed run keeps its stderr
    /// verbatim. A successful run is matched first against the
    /// unsigned-object report, then against the key-value report; text
    /// matching neither is kept verbatim. Total: every `(success, stream)`
    /// pair maps to exactly one variant.
    pub fn from_success_stream(success: bool, string: String) -> (r: DisplayOutput)
        ensures
            !success ==> r == (DisplayOutput::ErrorUnImplemented { stderr: string }),
            success ==> match spec_not_signed_at_all(string@) {
                Some(p) => r matches DisplayOutput::NotSignedAtAll { path } && path@ == p,
                None => {
                    if spec_signed_keys_ok(string@) {
                        r matches DisplayOutput::SignedKeys(keys)
                            && keys.wf()
                            && spec_display_entries(string@) == Some(kv_view(keys.raw@))
                    } else {
                        r == (DisplayOutput::SuccessUnimplemented { stdout: string })
                    }
                },
            },
    {
        if !success {
            return DisplayOutput::ErrorUnImplemented { stderr: string };
        }
        let s = str_to_chars(string.as_str());
        let jc = find_char_at(&s, 0, ':');
        if s.len() - jc >= 2 {
            if s[jc + 1] == ' ' {
                let j = skip_ws_at(&s, jc + 2);
                if eat_tag(&s, j, "code object is not signed at all").is_some() {
                    let path = chars_range_to_string(&s, 0, jc);
                    return DisplayOutput::NotSignedAtAll { path };
                }
            }
        }
        match SignedKeys::from_raw(string.as_str()) {
            Ok(keys) => DisplayOutput::SignedKeys(keys),
            Err(_) => DisplayOutput::SuccessUnimplemented { stdout: string },
        }
    }

    pub fn success_unimplemented(stdout: String) -> (r: DisplayOutput)
        ensures
            r == (DisplayOutput::SuccessUnimplemented { stdout }),
    {
        DisplayOutput::SuccessUnimplemented { stdout }
    }

    pub fn error_unimplemented(stderr: String) -> (r: DisplayOutput)
        ensures
            r == (DisplayOutput::ErrorUnImplemented { stderr }),
    {
        DisplayOutput::ErrorUnImplemented { stderr }
    }

    /// A rendering of this output for error reports.
    pub fn describe(&self) -> (out: String)
        ensures
            out@ == self.spec_describe(),
    {
        let mut out = String::new();
        match self {
            DisplayOutput::NotSignedAtAll { path } => {
                out.append("codesign display: not signed at all: ");
                out.append(path.as_str());
            },
            DisplayOutput::SignedKeys(keys) => {
                out.append("codesign display: signed, identifier ");
                out.append(keys.identifier());
            },
            DisplayOutput::SuccessUnimplemented { stdout } => {
                out.append("codesign display succeeded: ");
                out.append(stdout.as_str());
            },
            DisplayOutput::ErrorUnImplemented { stderr } => {
                out.append("codesign display errored: ");
                out.append(stderr.as_str());
            },
        }
        out
    }

    pub open spec fn spec_describe(&self) -> Seq<char> {
        match self {
            DisplayOutput::NotSignedAtAll { path } =>
                "codesign display: not signed at all: "@ + path@,
            DisplayOutput::SignedKeys(keys) =>
                "codesign display: signed, identifier "@ + keys.identifier@,
            DisplayOutput::SuccessUnimplemented { stdout } =>
                "codesign display succeeded: "@ + stdout@,
            DisplayOutput::ErrorUnImplemented { stderr } =>
                "codesign display errored: "@ + stderr@,
        }
    }
}

impl PublicCommandOutput for DisplayOutput {
    type PrimarySuccess = SignedKeys;

    /// Only a parsed key-value report counts as the expected success.
    open spec fn spec_successful(&self) -> bool {
        self is SignedKeys
    }

    fn success(&self) -> (r: Result<&SignedKeys, Error>) {
        match self {
            DisplayOutput::SignedKeys(keys) => Ok(keys),
            _ => Err(Error::output_errored(self.describe())),
        }
    }
}

} // verus!
