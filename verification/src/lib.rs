//! Helper operations for enumerated types, requested through the
//! `enum_functions` directive.
//!
//! A declaration is described by plain values ([`source::Declaration`]); the
//! processor ([`processor::impl_enum_functions`]) validates the directives
//! attached to it and yields the operations they request
//! ([`operation::Operation`]), or the first failure with its position.

pub mod arguments;
pub mod emit;
pub mod error;
pub mod operation;
pub mod processor;
pub mod proofs;
pub mod source;
