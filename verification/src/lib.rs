//! Canonical rendering of a parsed format-string template.
//!
//! The types in [`ast`] describe the pieces of a format template: literal
//! text, argument placeholders, positions, format specs, alignments and
//! counts. The functions in [`render`] print each of them back in its
//! canonical textual form, appending to a caller-supplied `String` sink.
//! [`laws`] states and proves the properties the canonical form obeys.

pub mod ast;
pub mod laws;
pub mod num;
pub mod render;
