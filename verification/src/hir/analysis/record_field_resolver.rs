//! Looking the fields of a record type up, resolving references first.

use vstd::prelude::*;

use crate::hir::analysis::type_canonicalizer;
use crate::hir::analysis::type_resolver::resolution;
use crate::hir::analysis::AnalysisError;
use crate::hir::types::{Record, RecordElement, Type};
use crate::name_map::NameMap;

verus! {

/// Resolves `type_` to a record type and hands that record's registered
/// fields back; a type that resolves to anything else is an error.
pub fn resolve<'a>(
    type_: &Type,
    types: &NameMap<Type>,
    records: &'a NameMap<Vec<RecordElement>>,
) -> (fields: Result<&'a Vec<RecordElement>, AnalysisError>)
    ensures
        match fields {
            Ok(fields) => {
                &&& resolution(types.entries(), *type_) is Some
                &&& resolution(types.entries(), *type_).unwrap() is Record
                &&& records.spec_get(resolution(types.entries(), *type_).unwrap()->Record_0.name@)
                    == Some(*fields)
            },
            Err(_) => resolution(types.entries(), *type_) is None || !(resolution(
                types.entries(),
                *type_,
            ).unwrap() is Record) || records.spec_get(
                resolution(types.entries(), *type_).unwrap()->Record_0.name@,
            ) is None,
        },
{
    match type_canonicalizer::canonicalize_record(type_, types)? {
        Some(record) => resolve_record(&record, records),
        None => Err(AnalysisError::RecordExpected(type_.clone())),
    }
}

/// The registered fields of the record type `record`.
pub fn resolve_record<'a>(record: &Record, records: &'a NameMap<Vec<RecordElement>>) -> (fields:
    Result<&'a Vec<RecordElement>, AnalysisError>)
    ensures
        match fields {
            Ok(fields) => records.spec_get(record.name@) == Some(*fields),
            Err(error) => records.spec_get(record.name@) is None && error == (
            AnalysisError::RecordNotFound(*record)),
        },
{
    match records.get(&record.name) {
        Some(fields) => Ok(fields),
        None => Err(AnalysisError::RecordNotFound(record.clone())),
    }
}

} // verus!
