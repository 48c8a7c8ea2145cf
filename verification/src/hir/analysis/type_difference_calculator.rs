//! Subtracting one type from another: what remains of a union once the
//! members of another type are taken away.

use vstd::prelude::*;

use crate::hir::analysis::type_canonicalizer::type_equals;
use crate::hir::analysis::union_type_creator;
use crate::hir::analysis::union_type_creator::spec_created_union;
use crate::hir::analysis::AnalysisError;
use crate::hir::types::{same_type, same_types, Type};
use crate::name_map::{bound_value, NameMap};
use crate::position::Position;

verus! {

/// The member types of `type_` once references are followed (with at most
/// `fuel` steps per path) and unions are flattened, left to right; nothing
/// when a reference cannot be resolved. A member that is itself built from
/// references and unions stands for itself: members are compared as they
/// were written.
pub open spec fn spec_members(entries: Seq<(String, Type)>, type_: Type, fuel: nat) -> Option<
    Seq<Type>,
>
    decreases fuel, type_,
{
    match type_ {
        Type::Reference(reference) => {
            if fuel == 0 {
                None
            } else {
                match bound_value(entries, reference.name@) {
                    Some(bound) => spec_members(entries, bound, (fuel - 1) as nat),
                    None => None,
                }
            }
        },
        Type::Union(union_type) => {
            let lhs = spec_members(entries, *union_type.lhs, fuel);
            let rhs = spec_members(entries, *union_type.rhs, fuel);
            if lhs is Some && rhs is Some {
                Some(lhs.unwrap() + rhs.unwrap())
            } else {
                None
            }
        },
        _ => Some(seq![type_]),
    }
}

/// The members of `type_` as the executable calculator collects them.
pub open spec fn members(entries: Seq<(String, Type)>, type_: Type) -> Option<Seq<Type>> {
    spec_members(entries, type_, entries.len())
}

/// Whether some member of `members` is the same type as `type_`.
pub open spec fn contains_same_type(members: Seq<Type>, type_: Type) -> bool {
    exists|i: int| 0 <= i < members.len() && same_type(#[trigger] members[i], type_)
}

/// The members of `minuend_members` that are not members of
/// `subtrahend_members`, in order.
pub open spec fn spec_kept_members(
    minuend_members: Seq<Type>,
    subtrahend_members: Seq<Type>,
) -> Seq<Type>
    decreases minuend_members.len(),
{
    if minuend_members.len() == 0 {
        Seq::empty()
    } else {
        let rest = spec_kept_members(minuend_members.drop_last(), subtrahend_members);
        if contains_same_type(subtrahend_members, minuend_members.last()) {
            rest
        } else {
            rest.push(minuend_members.last())
        }
    }
}

/// Folding two pairwise-same member lists gives the same union.
proof fn lemma_created_union_respects_same_types(a: Seq<Type>, b: Seq<Type>, position: Position)
    requires
        same_types(a, b),
        a.len() > 0,
    ensures
        same_type(spec_created_union(a, position), spec_created_union(b, position)),
    decreases a.len(),
{
    if a.len() > 1 {
        assert(same_types(a.drop_last(), b.drop_last()));
        lemma_created_union_respects_same_types(a.drop_last(), b.drop_last(), position);
    }
}

/// Computes `minuend` minus `subtrahend`: the union of the members of
/// `minuend` that are not members of `subtrahend`, `None` when nothing
/// remains. The top type absorbs every subtraction: taking members away
/// from it leaves it whole.
pub fn calculate(minuend: &Type, subtrahend: &Type, types: &NameMap<Type>) -> (difference: Result<
    Option<Type>,
    AnalysisError,
>)
    ensures
        match difference {
            Ok(difference) => {
                let minuend_members = members(types.entries(), *minuend);
                let subtrahend_members = members(types.entries(), *subtrahend);
                &&& minuend_members is Some
                &&& subtrahend_members is Some
                &&& if contains_same_type(
                    minuend_members.unwrap(),
                    Type::Any(crate::hir::types::Any { position: minuend.spec_position() }),
                ) {
                    difference is Some && difference.unwrap() is Any
                } else {
                    let kept = spec_kept_members(
                        minuend_members.unwrap(),
                        subtrahend_members.unwrap(),
                    );
                    (difference is None <==> kept.len() == 0) && (difference is Some
                        ==> same_type(
                        difference.unwrap(),
                        spec_created_union(kept, minuend.spec_position()),
                    ))
                }
            },
            Err(_) => members(types.entries(), *minuend) is None || members(
                types.entries(),
                *subtrahend,
            ) is None,
        },
{
    let mut minuend_members: Vec<&Type> = Vec::new();
    let fuel = types.len();
    collect_members(minuend, types, fuel, &mut minuend_members)?;

    let mut subtrahend_members: Vec<&Type> = Vec::new();
    collect_members(subtrahend, types, fuel, &mut subtrahend_members)?;

    let ghost minuend_seq = members(types.entries(), *minuend).unwrap();
    let ghost subtrahend_seq = members(types.entries(), *subtrahend).unwrap();

    proof {
        assert(members(types.entries(), *minuend) is Some);
        assert(members(types.entries(), *subtrahend) is Some);
        assert(minuend_members@.len() == minuend_seq.len());
        assert forall|i: int|
            0 <= i < minuend_seq.len() implies *minuend_members@[i] == minuend_seq[i] by {
            assert(*minuend_members@[0 + i] == minuend_seq[i]);
        }
        assert(subtrahend_members@.len() == subtrahend_seq.len());
        assert forall|i: int|
            0 <= i < subtrahend_seq.len() implies *subtrahend_members@[i] == subtrahend_seq[i] by {
            assert(*subtrahend_members@[0 + i] == subtrahend_seq[i]);
        }
    }

    let mut any_index: usize = 0;
    while any_index < minuend_members.len()
        invariant
            members(types.entries(), *minuend) == Some(minuend_seq),
            members(types.entries(), *subtrahend) == Some(subtrahend_seq),
            any_index <= minuend_members@.len(),
            minuend_members@.len() == minuend_seq.len(),
            forall|i: int| 0 <= i < minuend_seq.len() ==> *minuend_members@[i] == minuend_seq[i],
            forall|i: int| 0 <= i < any_index ==> !(#[trigger] minuend_seq[i] is Any),
        decreases minuend_members@.len() - any_index,
    {
        match minuend_members[any_index] {
            Type::Any(any_type) => {
                let absorbed = Type::Any(crate::hir::types::Any { position: any_type.position.clone() });
                proof {
                    assert(same_type(
                        minuend_seq[any_index as int],
                        Type::Any(crate::hir::types::Any { position: minuend.spec_position() }),
                    ));
                }
                return Ok(Some(absorbed));
            },
            _ => {},
        }
        any_index = any_index + 1;
    }

    proof {
        assert(subtrahend_members@.map_values(|m: &Type| *m) =~= subtrahend_seq);
    }

    let mut kept: Vec<Type> = Vec::new();
    let mut index: usize = 0;
    while index < minuend_members.len()
        invariant
            members(types.entries(), *minuend) == Some(minuend_seq),
            members(types.entries(), *subtrahend) == Some(subtrahend_seq),
            index <= minuend_members@.len(),
            minuend_members@.len() == minuend_seq.len(),
            forall|i: int| 0 <= i < minuend_seq.len() ==> *minuend_members@[i] == minuend_seq[i],
            forall|i: int| 0 <= i < minuend_seq.len() ==> !(#[trigger] minuend_seq[i] is Any),
            subtrahend_members@.map_values(|m: &Type| *m) == subtrahend_seq,
            same_types(kept@, spec_kept_members(minuend_seq.subrange(0, index as int), subtrahend_seq)),
        decreases minuend_members@.len() - index,
    {
        proof {
            assert(minuend_seq.subrange(0, index + 1 as int).drop_last() =~= minuend_seq.subrange(
                0,
                index as int,
            ));
        }
        if !contains_member(&subtrahend_members, minuend_members[index]) {
            kept.push(minuend_members[index].clone());
        }
        index = index + 1;
    }

    proof {
        assert(minuend_seq.subrange(0, minuend_seq.len() as int) =~= minuend_seq);
        assert forall|i: int|
            0 <= i < minuend_seq.len() implies !same_type(
            #[trigger] minuend_seq[i],
            Type::Any(crate::hir::types::Any { position: minuend.spec_position() }),
        ) by {
            assert(!(minuend_seq[i] is Any));
        }
    }

    let position = minuend.position().clone();
    let difference = union_type_creator::create(&kept, &position);

    proof {
        let spec_kept = spec_kept_members(minuend_seq, subtrahend_seq);
        if kept@.len() > 0 {
            lemma_created_union_respects_same_types(kept@, spec_kept, position);
            if difference is Some {
                crate::hir::types::lemma_same_type_transitive(
                    difference.unwrap(),
                    spec_created_union(kept@, position),
                    spec_created_union(spec_kept, position),
                );
            }
        }
    }

    Ok(difference)
}


/// Whether `type_` is the same type as some collected member.
fn contains_member(members: &Vec<&Type>, type_: &Type) -> (contained: bool)
    ensures
        contained == contains_same_type(members@.map_values(|m: &Type| *m), *type_),
{
    let ghost member_seq = members@.map_values(|m: &Type| *m);
    let mut index: usize = 0;
    while index < members.len()
        invariant
            index <= members@.len(),
            member_seq == members@.map_values(|m: &Type| *m),
            forall|i: int| 0 <= i < index ==> !same_type(#[trigger] member_seq[i], *type_),
        decreases members@.len() - index,
    {
        if type_equals(members[index], type_) {
            proof {
                assert(member_seq[index as int] == *members@[index as int]);
                assert(same_type(member_seq[index as int], *type_));
            }
            return true;
        }
        index = index + 1;
    }
    false
}

/// Collects the members of `type_` into `out`, following references with
/// at most `fuel` steps per path and flattening unions left to right.
fn collect_members<'a>(
    type_: &'a Type,
    types: &'a NameMap<Type>,
    fuel: usize,
    out: &mut Vec<&'a Type>,
) -> (collected: Result<(), AnalysisError>)
    ensures
        match collected {
            Ok(()) => {
                let collected_members = spec_members(types.entries(), *type_, fuel as nat);
                &&& collected_members is Some
                &&& final(out)@.len() == old(out)@.len() + collected_members.unwrap().len()
                &&& final(out)@.subrange(0, old(out)@.len() as int) == old(out)@
                &&& forall|i: int|
                    0 <= i < collected_members.unwrap().len() ==> *final(out)@[old(out)@.len() + i]
                        == collected_members.unwrap()[i]
            },
            Err(_) => spec_members(types.entries(), *type_, fuel as nat) is None,
        },
    decreases fuel, *type_,
{
    match type_ {
        Type::Reference(reference) => {
            if fuel == 0 {
                return Err(AnalysisError::TypeNotFound(reference.clone()));
            }
            match types.get(&reference.name) {
                Some(bound) => collect_members(bound, types, fuel - 1, out),
                None => Err(AnalysisError::TypeNotFound(reference.clone())),
            }
        },
        Type::Union(union_type) => {
            collect_members(&union_type.lhs, types, fuel, out)?;
            collect_members(&union_type.rhs, types, fuel, out)?;
            proof {
                assert(final(out)@.subrange(0, old(out)@.len() as int) =~= old(out)@);
            }
            Ok(())
        },
        _ => {
            out.push(type_);
            proof {
                assert(final(out)@.subrange(0, old(out)@.len() as int) =~= old(out)@);
            }
            Ok(())
        },
    }
}

} // verus!
