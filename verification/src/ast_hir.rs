//! Lowering from the syntax level into the representation: qualifying
//! imported names and rewriting singleton-record references.

pub mod name_qualifier;
pub mod singleton_record_compiler;
