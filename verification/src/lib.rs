//! Generator logic for single-field wrapper types over primitive integers.
//!
//! Given the structure of a type declaration, the library validates that it
//! is a positional one-field struct with a transparent-layout attribute whose
//! field is one of the eight primitive integer types, and on success decides
//! the exact ordered sequence of implementation fragments to emit for it.
//! On failure it produces a diagnostic with a message and a span anchor.

pub mod classify;
pub mod decl;
pub mod diagnostic;
pub mod generate;
pub mod semantics;

pub use generate::impl_num_type;
pub use generate::num_type;
