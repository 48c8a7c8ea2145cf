//! Folding a list of member types back into one union type.

use vstd::prelude::*;

use crate::hir::types::{same_type, same_types, Type, Union};
use crate::position::Position;

verus! {

/// The union that `create` folds `members` into: one member stands for
/// itself, more join left to right.
pub open spec fn spec_created_union(members: Seq<Type>, position: Position) -> Type
    decreases members.len(),
{
    if members.len() <= 1 {
        members[0]
    } else {
        Type::Union(
            Union {
                lhs: Box::new(spec_created_union(members.drop_last(), position)),
                rhs: Box::new(members.last()),
                position,
            },
        )
    }
}

/// Folds `members` into one union type, left to right; no members fold
/// into no type.
pub fn create(members: &Vec<Type>, position: &Position) -> (union_type: Option<Type>)
    ensures
        members@.len() == 0 <==> union_type is None,
        members@.len() > 0 ==> same_type(
            union_type.unwrap(),
            spec_created_union(members@, *position),
        ),
{
    if members.len() == 0 {
        return None;
    }

    let ghost all_members = members@;
    let mut union_type: Type = members[0].clone();
    let mut folded: usize = 1;

    proof {
        assert(members@.subrange(0, 1).len() == 1);
        assert(members@.subrange(0, 1)[0] == members@[0]);
    }

    while folded < members.len()
        invariant
            1 <= folded <= members@.len(),
            same_type(union_type, spec_created_union(members@.subrange(0, folded as int), *position)),
        decreases members@.len() - folded,
    {
        let rhs = members[folded].clone();
        union_type = Type::Union(
            Union {
                lhs: Box::new(union_type),
                rhs: Box::new(rhs),
                position: position.clone(),
            },
        );
        folded = folded + 1;
        proof {
            assert(members@.subrange(0, folded as int).drop_last() =~= members@.subrange(
                0,
                folded - 1 as int,
            ));
            assert(members@.subrange(0, folded as int).last() == members@[folded - 1]);
        }
    }

    proof {
        assert(members@.subrange(0, members@.len() as int) =~= members@);
    }

    Some(union_type)
}

} // verus!
