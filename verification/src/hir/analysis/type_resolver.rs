//! Resolution of named type references against a registry of type
//! definitions and aliases.

use vstd::prelude::*;

use crate::hir::analysis::AnalysisError;
use crate::hir::types::{same_type, Reference, Type};
use crate::name_map::{bound_value, NameMap};

verus! {

/// What following `type_` through the registry for at most `fuel` steps
/// reaches: the first non-reference type, or nothing when a name is
/// unbound or the steps run out (an unbounded chain of references can only
/// be a cycle of definitions, which no finite resolution escapes).
pub open spec fn spec_resolve_type(
    entries: Seq<(String, Type)>,
    type_: Type,
    fuel: nat,
) -> Option<Type>
    decreases fuel,
{
    match type_ {
        Type::Reference(reference) => {
            if fuel == 0 {
                None
            } else {
                match bound_value(entries, reference.name@) {
                    Some(bound) => spec_resolve_type(entries, bound, (fuel - 1) as nat),
                    None => None,
                }
            }
        },
        _ => Some(type_),
    }
}

/// The resolution of `type_` that the executable resolver performs: one
/// lookup per registered name suffices for every registry without
/// reference cycles, since a resolution that looks one name up twice can
/// only be circling.
pub open spec fn resolution(entries: Seq<(String, Type)>, type_: Type) -> Option<Type> {
    spec_resolve_type(entries, type_, entries.len())
}

/// Resolves a named reference to the structural type it stands for.
pub fn resolve(reference: &Reference, types: &NameMap<Type>) -> (resolved: Result<
    Type,
    AnalysisError,
>)
    ensures
        match resolved {
            Ok(resolved) => resolution(types.entries(), Type::Reference(*reference)) is Some
                && same_type(
                resolved,
                resolution(types.entries(), Type::Reference(*reference)).unwrap(),
            ),
            Err(error) => resolution(types.entries(), Type::Reference(*reference)) is None && error
                is TypeNotFound,
        },
{
    let type_ = Type::Reference(reference.clone());
    resolve_type(&type_, types)
}

/// Resolves `type_` to the structural type it stands for: follows
/// references through the registry until a non-reference type appears.
pub fn resolve_type(type_: &Type, types: &NameMap<Type>) -> (resolved: Result<
    Type,
    AnalysisError,
>)
    ensures
        match resolved {
            Ok(resolved) => resolution(types.entries(), *type_) is Some && same_type(
                resolved,
                resolution(types.entries(), *type_).unwrap(),
            ),
            Err(error) => resolution(types.entries(), *type_) is None && error is TypeNotFound,
        },
{
    let mut current: &Type = type_;
    let mut fuel: usize = types.len();

    while fuel > 0
        invariant
            spec_resolve_type(types.entries(), *type_, types.entries().len())
                == spec_resolve_type(types.entries(), *current, fuel as nat),
            fuel <= types.entries().len(),
        decreases fuel,
    {
        match current {
            Type::Reference(reference) => {
                match types.get(&reference.name) {
                    Some(bound) => {
                        current = bound;
                        fuel = fuel - 1;
                    },
                    None => {
                        return Err(AnalysisError::TypeNotFound(reference.clone()));
                    },
                }
            },
            _ => {
                return Ok(current.clone());
            },
        }
    }

    match current {
        Type::Reference(reference) => Err(AnalysisError::TypeNotFound(reference.clone())),
        _ => Ok(current.clone()),
    }
}

} // verus!
