//! The command line: the verbs and what an argument list asks for.

pub mod args;
pub mod arguments;
