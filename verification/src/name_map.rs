//! A small name-keyed map with scoped shadowing.
//!
//! The compiler passes key their environments and registries by name. The
//! map is an association list: a binding pushed later shadows an earlier
//! binding of the same name, and a scope is closed by truncating back to
//! the length it was opened at — exactly the lexical shadowing the
//! representation's `let` and branch bindings need.

use vstd::prelude::*;

verus! {

/// A name-keyed association map; the latest binding of a name wins.
pub struct NameMap<V> {
    entries: Vec<(String, V)>,
}

/// The value bound to `name` in `entries`, latest binding first.
pub open spec fn bound_value<V>(entries: Seq<(String, V)>, name: Seq<char>) -> Option<V>
    decreases entries.len(),
{
    if entries.len() == 0 {
        None
    } else if entries.last().0@ == name {
        Some(entries.last().1)
    } else {
        bound_value(entries.drop_last(), name)
    }
}

impl<V> NameMap<V> {
    /// The bindings, oldest first.
    pub closed spec fn entries(&self) -> Seq<(String, V)> {
        self.entries@
    }

    /// The value bound to `name`, if any.
    pub open spec fn spec_get(&self, name: Seq<char>) -> Option<V> {
        bound_value(self.entries(), name)
    }

    /// An empty map.
    pub fn new() -> (map: NameMap<V>)
        ensures
            map.entries() == Seq::<(String, V)>::empty(),
    {
        NameMap { entries: Vec::new() }
    }

    /// Binds `name` to `value`, shadowing any earlier binding.
    pub fn insert(&mut self, name: String, value: V)
        ensures
            final(self).entries() == old(self).entries().push((name, value)),
            final(self).spec_get(name@) == Some(value),
            forall|other: Seq<char>|
                other != name@ ==> final(self).spec_get(other) == old(self).spec_get(other),
    {
        self.entries.push((name, value));
        proof {
            assert(final(self).entries().drop_last() =~= old(self).entries());
        }
    }

    /// Looks the latest binding of `name` up.
    pub fn get(&self, name: &String) -> (value: Option<&V>)
        ensures
            match value {
                Some(value) => self.spec_get(name@) == Some(*value),
                None => self.spec_get(name@) is None,
            },
    {
        let mut remaining = self.entries.len();
        proof {
            assert(self.entries@.subrange(0, remaining as int) =~= self.entries@);
        }
        while remaining > 0
            invariant
                remaining <= self.entries@.len(),
                bound_value(self.entries(), name@) == bound_value(
                    self.entries@.subrange(0, remaining as int),
                    name@,
                ),
            decreases remaining,
        {
            remaining = remaining - 1;
            proof {
                assert(self.entries@.subrange(0, remaining + 1 as int).drop_last()
                    =~= self.entries@.subrange(0, remaining as int));
            }
            if self.entries[remaining].0 == *name {
                return Some(&self.entries[remaining].1);
            }
        }
        proof {
            assert(self.entries@.subrange(0, 0) =~= Seq::<(String, V)>::empty());
        }
        None
    }

    /// How many bindings the map holds; a scope remembers this length and
    /// closes itself with [`Self::truncate`].
    pub fn len(&self) -> (length: usize)
        ensures
            length == self.entries().len(),
    {
        self.entries.len()
    }

    /// Drops every binding past the first `length`: closes the scopes
    /// opened since the map had that many bindings.
    pub fn truncate(&mut self, length: usize)
        ensures
            length <= old(self).entries().len() ==> final(self).entries() == old(
                self,
            ).entries().subrange(0, length as int),
            length > old(self).entries().len() ==> final(self).entries() == old(self).entries(),
    {
        self.entries.truncate(length);
    }
}

} // verus!
