//! Detection of the OpenCode command line tool.
//!
//! Looking for the binary and running it is left to the caller; what its
//! findings amount to is decided here.

use crate::text::{decode_strict, trim, trimmed};
use vstd::prelude::*;
use vstd::utf8::*;

verus! {

/// Name of the binary that is looked for.
pub const OPENCODE_BINARY: &'static str = "opencode";

/// Argument that makes the binary print its version.
pub const VERSION_FLAG: &'static str = "--version";

/// Status of the OpenCode installation.
#[derive(Debug, Clone, PartialEq)]
pub struct OpenCodeStatus {
    pub found: bool,
    pub version: Option<String>,
    pub path: Option<String>,
}

impl OpenCodeStatus {
    /// Nothing was found.
    pub open spec fn is_absent(&self) -> bool {
        !self.found && self.version is None && self.path is None
    }
}

impl Default for OpenCodeStatus {
    fn default() -> (status: Self)
        ensures
            status.is_absent(),
    {
        OpenCodeStatus { found: false, version: None, path: None }
    }
}

/// What running the binary for its version gave.
#[derive(Debug, Clone)]
pub struct ProbeOutput {
    /// Whether the run ended with success.
    pub success: bool,
    pub stdout: Vec<u8>,
    pub stderr: Vec<u8>,
}

impl ProbeOutput {
    /// The bytes that hold the answer: standard output after a success,
    /// standard error otherwise.
    pub open spec fn answer(&self) -> Seq<u8> {
        if self.success {
            self.stdout@
        } else {
            self.stderr@
        }
    }
}

/// The version that a run reports: its answer without the whitespace
/// around it, provided the answer is well-formed UTF-8 and more than
/// whitespace.
pub open spec fn version_of(output: Option<ProbeOutput>) -> Option<Seq<char>> {
    match output {
        None => None,
        Some(run) => {
            let answer = run.answer();
            if valid_utf8(answer) && trimmed(decode_utf8(answer)).len() > 0 {
                Some(trimmed(decode_utf8(answer)))
            } else {
                None
            }
        },
    }
}

/// Reads the version out of a run of the binary, if there was a run.
pub fn version_from_output(output: Option<ProbeOutput>) -> (version: Option<String>)
    ensures
        version.deep_view() == version_of(output),
{
    match output {
        None => None,
        Some(run) => {
            let answer = if run.success {
                run.stdout
            } else {
                run.stderr
            };
            match decode_strict(answer) {
                None => None,
                Some(text) => {
                    let kept = trim(text.as_str());
                    if kept.as_str().is_empty() {
                        None
                    } else {
                        Some(kept)
                    }
                },
            }
        },
    }
}

/// Sums up a search for the binary: `path` is where it was found, if it
/// was, and `output` is what running it there for its version gave.
pub fn status_from_probe(path: Option<String>, output: Option<ProbeOutput>) -> (status:
    OpenCodeStatus)
    ensures
        path is None ==> status.is_absent(),
        path matches Some(location) ==> {
            &&& status.found
            &&& status.path.deep_view() == Some(location@)
            &&& status.version.deep_view() == version_of(output)
        },
{
    match path {
        None => OpenCodeStatus::default(),
        Some(location) => OpenCodeStatus {
            found: true,
            version: version_from_output(output),
            path: Some(location),
        },
    }
}

} // verus!
