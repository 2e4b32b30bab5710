//! A generic last-in-first-out (LIFO) stack.
//!
//! `Stack<T>` owns an ordered sequence of elements and exposes five
//! operations: `push`, `pop`, `peek`, `is_empty` and `len`. Querying or
//! removing the top of an empty stack is a routine occurrence, reported
//! as `None` rather than as an error; no operation panics.
//!
//! The view of a stack is the sequence of its elements from bottom to
//! top: the last element of the view is the top of the stack. The
//! algebraic laws of the structure, stated over that view, are proved
//! in [`laws`].

use vstd::prelude::*;

pub mod laws;

verus! {

/// A last-in-first-out container over elements of type `T`.
///
/// The stack owns every element pushed into it, and is itself a
/// single-owner value: it implements neither `Copy` nor `Clone`, so a
/// second independently mutable stack with the same contents cannot
/// arise implicitly.
pub struct Stack<T> {
    items: Vec<T>,
}

impl<T> View for Stack<T> {
    type V = Seq<T>;

    closed spec fn view(&self) -> Seq<T> {
        self.items@
    }
}

impl<T> Stack<T> {
    /// Creates a new, empty stack.
    pub fn new() -> (s: Self)
        ensures
            s@ == Seq::<T>::empty(),
    {
        Stack { items: Vec::new() }
    }

    /// Pushes `item` on top of the stack, taking ownership of it.
    /// The length grows by exactly one and `item` becomes the new top.
    pub fn push(&mut self, item: T)
        ensures
            final(self)@ == old(self)@.push(item),
    {
        self.items.push(item);
    }

    /// Removes the top element and returns it, transferring its
    /// ownership to the caller; the length shrinks by exactly one. On
    /// an empty stack it returns `None` and changes nothing.
    pub fn pop(&mut self) -> (r: Option<T>)
        ensures
            old(self)@.len() == 0 ==> r.is_none() && final(self)@ == old(self)@,
            old(self)@.len() > 0 ==> r == Some(old(self)@.last()) && final(self)@ == old(
                self,
            )@.drop_last(),
    {
        self.items.pop()
    }

    /// Returns a reference to the top element without removing it, or
    /// `None` on an empty stack. It takes `&self`, so peeking any
    /// number of times can change neither the length nor the result of
    /// a subsequent `pop`.
    pub fn peek(&self) -> (r: Option<&T>)
        ensures
            self@.len() == 0 ==> r.is_none(),
            self@.len() > 0 ==> r.is_some() && r.unwrap() == self@.last(),
    {
        self.items.as_slice().last()
    }

    /// Returns true if and only if the stack holds no elements.
    pub fn is_empty(&self) -> (r: bool)
        ensures
            r <==> self@.len() == 0,
    {
        self.items.is_empty()
    }

    /// Returns the number of elements currently on the stack.
    pub fn len(&self) -> (r: usize)
        ensures
            r == self@.len(),
    {
        self.items.len()
    }
}

} // verus!
