//! Analyses over the type language: resolving named references,
//! canonicalizing to structural types, comparing and subtracting types.

use vstd::prelude::*;

use crate::hir::types::{Record, Reference, Type};

pub mod record_field_resolver;
pub mod type_canonicalizer;
pub mod type_difference_calculator;
pub mod type_resolver;
pub mod union_type_creator;

verus! {

/// A failure of a type analysis.
#[derive(Clone, Debug, PartialEq)]
pub enum AnalysisError {
    /// A record type was required.
    RecordExpected(Type),
    /// A record type names no known record definition.
    RecordNotFound(Record),
    /// A reference names no known type, or resolving it never reaches a
    /// structural type.
    TypeNotFound(Reference),
}

} // verus!
