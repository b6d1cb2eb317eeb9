//! Small building blocks for programs that cross a language boundary, and the
//! rules by which a build locates the interpreter installation it links against.

pub mod bindings;
pub mod directives;
pub mod exports;
pub mod paths;
pub mod resolver;
pub mod runtime_library;
pub mod text;
pub mod traces;
