//! Finding the directory of the interpreter's shared runtime library, which
//! a Windows build adds to the library search path.
//!
//! The interpreter is asked for the prefix it is installed under. The caller
//! looks for the executable once more and then runs it with the query; what
//! came of that arrives here as a [`QueryOutcome`]. A query that fails costs a
//! warning and nothing else.

use vstd::prelude::*;
use vstd::string::*;
use crate::directives::{set_variable, variable_line, warning, warning_line};
use crate::text::{decode_lossy, text_of, trim, trimmed};

verus! {

/// The variable that holds the library search path.
pub const LIBRARY_PATH_VARIABLE: &'static str = "PATH";

/// The flag that makes the interpreter run the script that follows it.
pub const QUERY_FLAG: &'static str = "-c";

/// The script that prints the prefix the interpreter is installed under.
pub const QUERY_SCRIPT: &'static str = "import sys; print(sys.base_exec_prefix)";

/// What came of running the interpreter with the query.
#[derive(Debug)]
pub enum QueryOutcome {
    /// The executable was not there any more when it was looked for.
    ExecutableMissing,
    /// The interpreter could not be started.
    NotStarted,
    /// The interpreter ran and reported a failure.
    Failed,
    /// The interpreter ran; this is what it wrote to its standard output.
    Succeeded(Vec<u8>),
}

/// The library search path after the query, and what there is to tell.
#[derive(Debug)]
pub struct LibraryPath {
    /// The library search path to go on with.
    pub value: String,
    /// The runtime library directory, where the query gave one.
    pub runtime_library_directory: Option<String>,
    /// The warning to emit, where the query failed.
    pub warning: Option<String>,
}

/// The directory that the interpreter's answer names: the answer without
/// the white space around it.
pub open spec fn reported_directory(answer: Seq<char>) -> Seq<char> {
    trimmed(answer)
}

/// The search path `prior`, followed by a semicolon and the directory that
/// `answer` names.
pub open spec fn extended(prior: Seq<char>, answer: Seq<char>) -> Seq<char> {
    prior + seq![';'] + reported_directory(answer)
}

/// Appends the directory that `answer` names to the search path `prior`.
pub fn extend_library_path(prior: &str, answer: &str) -> (path: String)
    ensures
        path@ == extended(prior@, answer@),
{
    proof {
        reveal_strlit(";");
    }
    let mut path = String::from_str(prior);
    path.append(";");
    path.append(trim(answer));
    path
}

/// Settles the library search path from what the query gave.
///
/// After a successful query the directory it names is appended to `prior`.
/// After any other the search path is `prior`, and a warning says so. No
/// outcome ends the build.
pub fn resolve_runtime_library_directory(
    prior: &str,
    outcome: &QueryOutcome,
) -> (path: LibraryPath)
    ensures
        match *outcome {
            QueryOutcome::Succeeded(output) => {
                &&& path.value@ == extended(prior@, text_of(output@))
                &&& path.runtime_library_directory matches Some(directory) && directory@
                    == reported_directory(text_of(output@))
                &&& path.warning is None
            },
            _ => {
                &&& path.value@ == prior@
                &&& path.runtime_library_directory is None
                &&& path.warning matches Some(warning) && warning@
                    == "Failed to get Python executable path"@
            },
        },
{
    match outcome {
        QueryOutcome::Succeeded(output) => {
            let answer = decode_lossy(output.as_slice());
            LibraryPath {
                value: extend_library_path(prior, answer.as_str()),
                runtime_library_directory: Some(String::from_str(trim(answer.as_str()))),
                warning: None,
            }
        },
        _ => LibraryPath {
            value: String::from_str(prior),
            runtime_library_directory: None,
            warning: Some(String::from_str("Failed to get Python executable path")),
        },
    }
}

impl LibraryPath {
    /// The line the build prints: the warning where there is one, else the
    /// library search path for later build steps.
    pub open spec fn directive_text(self) -> Seq<char> {
        match self.warning {
            Some(text) => warning_line(text@),
            None => variable_line(LIBRARY_PATH_VARIABLE@, self.value@),
        }
    }

    /// The line to print.
    pub fn directive(&self) -> (line: String)
        ensures
            line@ == self.directive_text(),
    {
        match &self.warning {
            Some(text) => warning(text.as_str()),
            None => set_variable(LIBRARY_PATH_VARIABLE, self.value.as_str()),
        }
    }
}

} // verus!
