//! A box wrapper and a recursive list allocated behind boxes.
use vstd::pervasive::unreached;
use vstd::prelude::*;

verus! {

/// A value held behind a custom single-field wrapper.
pub struct MyBox<T>(pub T);

impl<T> MyBox<T> {
    /// Wraps a value.
    pub fn new(x: T) -> (r: MyBox<T>)
        ensures
            r.0 == x,
    {
        MyBox(x)
    }
}

/// A singly linked list of numbers.
pub enum List {
    Cons(i32, Box<List>),
    Nil,
}

impl List {
    /// The first element; only a non-empty list has one.
    pub fn head(&self) -> (r: i32)
        requires
            self is Cons,
        ensures
            self matches List::Cons(v, _) ==> r == v,
    {
        match self {
            List::Cons(value, _) => *value,
            List::Nil => unreached(),
        }
    }
}

} // verus!
