//! The operand stack: a growable last-in-first-out store of values.
//!
//! One stack backs one asynchronous computation. Generated code pushes the
//! values that are live across a suspension point and pops them back, in
//! reverse order, when the computation resumes. Matching every pop with the
//! push that produced it is the caller's obligation, stated here as a
//! precondition; the stack performs no checking of its own.

use vstd::prelude::*;

verus! {

/// A last-in-first-out store of operand values.
pub struct Stack<T> {
    values: Vec<T>,
}

impl<T> View for Stack<T> {
    type V = Seq<T>;

    closed spec fn view(&self) -> Seq<T> {
        self.values@
    }
}

impl<T> Stack<T> {
    /// Creates an empty stack with room reserved for `capacity` values.
    ///
    /// The compiler chooses the capacity per suspension point; the buffer
    /// still grows when a computation pushes more than was reserved.
    pub fn new(capacity: usize) -> (stack: Stack<T>)
        ensures
            stack@ == Seq::<T>::empty(),
    {
        Stack { values: Vec::with_capacity(capacity) }
    }

    /// Writes a value at the current top of the stack.
    pub fn push(&mut self, value: T)
        ensures
            final(self)@ == old(self)@.push(value),
    {
        self.values.push(value);
    }

    /// Reads and removes the value at the top of the stack.
    ///
    /// Popping an empty stack is a precondition violation, not a
    /// recoverable error: the calling code is generated so that every pop
    /// mirrors an earlier push.
    pub fn pop(&mut self) -> (value: T)
        requires
            old(self)@.len() > 0,
        ensures
            value == old(self)@.last(),
            final(self)@ == old(self)@.drop_last(),
    {
        match self.values.pop() {
            Some(value) => value,
            None => unreached(),
        }
    }

    /// The number of values currently on the stack.
    pub fn len(&self) -> (length: usize)
        ensures
            length == self@.len(),
    {
        self.values.len()
    }

    /// Whether the stack holds no value.
    pub fn is_empty(&self) -> (empty: bool)
        ensures
            empty == (self@.len() == 0),
    {
        self.values.is_empty()
    }
}

} // verus!
