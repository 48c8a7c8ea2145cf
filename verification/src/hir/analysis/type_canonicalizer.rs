//! Canonical views of types: resolving a type to the structural list,
//! record or function type it stands for, and the structural comparison
//! the other analyses decide with.

use vstd::prelude::*;

use crate::hir::analysis::type_resolver;
use crate::hir::analysis::type_resolver::resolution;
use crate::hir::analysis::AnalysisError;
use crate::hir::types::{same_type, Function, List, Record, Type};
use crate::name_map::NameMap;

verus! {

/// Resolves `type_` and hands its list form back, or `None` when it
/// resolves to anything but a list type.
pub fn canonicalize_list(type_: &Type, types: &NameMap<Type>) -> (canonical: Result<
    Option<List>,
    AnalysisError,
>)
    ensures
        match canonical {
            Ok(Some(list)) => resolution(types.entries(), *type_) is Some && same_type(
                Type::List(list),
                resolution(types.entries(), *type_).unwrap(),
            ),
            Ok(None) => resolution(types.entries(), *type_) is Some && !(resolution(
                types.entries(),
                *type_,
            ).unwrap() is List),
            Err(_) => resolution(types.entries(), *type_) is None,
        },
{
    match type_resolver::resolve_type(type_, types)? {
        Type::List(list) => Ok(Some(list)),
        _ => Ok(None),
    }
}

/// Resolves `type_` and hands its record form back, or `None` when it
/// resolves to anything but a record type.
pub fn canonicalize_record(type_: &Type, types: &NameMap<Type>) -> (canonical: Result<
    Option<Record>,
    AnalysisError,
>)
    ensures
        match canonical {
            Ok(Some(record)) => resolution(types.entries(), *type_) is Some && same_type(
                Type::Record(record),
                resolution(types.entries(), *type_).unwrap(),
            ),
            Ok(None) => resolution(types.entries(), *type_) is Some && !(resolution(
                types.entries(),
                *type_,
            ).unwrap() is Record),
            Err(_) => resolution(types.entries(), *type_) is None,
        },
{
    match type_resolver::resolve_type(type_, types)? {
        Type::Record(record) => Ok(Some(record)),
        _ => Ok(None),
    }
}

/// Resolves `type_` and hands its function form back, or `None` when it
/// resolves to anything but a function type.
pub fn canonicalize_function(type_: &Type, types: &NameMap<Type>) -> (canonical: Result<
    Option<Function>,
    AnalysisError,
>)
    ensures
        match canonical {
            Ok(Some(function)) => resolution(types.entries(), *type_) is Some && same_type(
                Type::Function(function),
                resolution(types.entries(), *type_).unwrap(),
            ),
            Ok(None) => resolution(types.entries(), *type_) is Some && !(resolution(
                types.entries(),
                *type_,
            ).unwrap() is Function),
            Err(_) => resolution(types.entries(), *type_) is None,
        },
{
    match type_resolver::resolve_type(type_, types)? {
        Type::Function(function) => Ok(Some(function)),
        _ => Ok(None),
    }
}

/// Decides [`same_type`]: whether two types are the same type of the
/// language, positions aside.
#[verifier::loop_isolation(false)]
pub fn type_equals(a: &Type, b: &Type) -> (equal: bool)
    ensures
        equal == same_type(*a, *b),
    decreases *a,
{
    match (a, b) {
        (Type::Any(_), Type::Any(_)) => true,
        (Type::Boolean(_), Type::Boolean(_)) => true,
        (Type::ByteString(_), Type::ByteString(_)) => true,
        (Type::Function(x), Type::Function(y)) => {
            if x.arguments.len() != y.arguments.len() {
                return false;
            }
            let mut index: usize = 0;
            while index < x.arguments.len()
                invariant
                    index <= x.arguments@.len(),
                    x.arguments@.len() == y.arguments@.len(),
                    a == Type::Function(*x),
                    b == Type::Function(*y),
                    forall|i: int|
                        0 <= i < index ==> same_type(#[trigger] x.arguments@[i], y.arguments@[i]),
                decreases x.arguments@.len() - index,
            {
                if !type_equals(&x.arguments[index], &y.arguments[index]) {
                    return false;
                }
                index = index + 1;
            }
            type_equals(&x.result, &y.result)
        },
        (Type::List(x), Type::List(y)) => type_equals(&x.element, &y.element),
        (Type::NoneType(_), Type::NoneType(_)) => true,
        (Type::Number(_), Type::Number(_)) => true,
        (Type::Record(x), Type::Record(y)) => x.name == y.name,
        (Type::Reference(x), Type::Reference(y)) => x.name == y.name,
        (Type::Union(x), Type::Union(y)) => type_equals(&x.lhs, &y.lhs) && type_equals(
            &x.rhs,
            &y.rhs,
        ),
        _ => false,
    }
}

} // verus!
