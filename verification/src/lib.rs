//! Generates bitflag accessor methods for a struct with an integer backing
//! field, driven by attribute annotations: getters, setters, exclusivity
//! checks and a choice of debug formatting.
//!
//! The input is a small model of the annotated struct (its name, its
//! attributes and its fields); the output is the source text of an `impl`
//! block with one getter, one exclusivity check and one setter per declared
//! flag, plus an optional `Debug` implementation.

pub mod bits;
pub mod expr;
pub mod gen;
pub mod parse;
pub mod syntax;
pub mod text;
