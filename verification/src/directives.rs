//! The lines by which a build step talks to cargo.

use vstd::prelude::*;
use vstd::string::*;

verus! {

/// The line that sets the variable `name` to `value` for the later build
/// steps.
pub open spec fn variable_line(name: Seq<char>, value: Seq<char>) -> Seq<char> {
    "cargo:rustc-env="@ + name + "="@ + value
}

/// The line that makes the build run again when `path` changes.
pub open spec fn rerun_line(path: Seq<char>) -> Seq<char> {
    "cargo:rerun-if-changed="@ + path
}

/// The line that shows `text` as a warning.
pub open spec fn warning_line(text: Seq<char>) -> Seq<char> {
    "cargo:warning="@ + text
}

/// Writes the line that sets the variable `name` to `value`.
pub fn set_variable(name: &str, value: &str) -> (line: String)
    ensures
        line@ == variable_line(name@, value@),
{
    String::from_str("cargo:rustc-env=").concat(name).concat("=").concat(value)
}

/// Writes the line that makes the build run again when `path` changes.
pub fn rerun_if_changed(path: &str) -> (line: String)
    ensures
        line@ == rerun_line(path@),
{
    String::from_str("cargo:rerun-if-changed=").concat(path)
}

/// Writes the line that shows `text` as a warning.
pub fn warning(text: &str) -> (line: String)
    ensures
        line@ == warning_line(text@),
{
    String::from_str("cargo:warning=").concat(text)
}

} // verus!
