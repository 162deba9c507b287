//! Generic functions and a generic point type.
use core::cmp::Ordering;
use vstd::laws_cmp::obeys_partial_cmp_spec_properties;
use vstd::prelude::*;
use vstd::std_specs::cmp::PartialOrdSpec;
use vstd::std_specs::convert::IntoSpec;

verus! {

/// The greatest element of a non-empty slice: an element of the slice that
/// no element compares strictly greater than.
pub fn largest<T: PartialOrd + Copy>(list: &[T]) -> (r: T)
    requires
        list@.len() > 0,
        T::obeys_partial_cmp_spec(),
        obeys_partial_cmp_spec_properties::<T>(),
    ensures
        exists|i: int| 0 <= i < list@.len() && r == list@[i],
        forall|i: int|
            0 <= i < list@.len() ==> list@[i].partial_cmp_spec(&r) != Some(Ordering::Greater),
{
    let mut largest = list[0];
    let mut k: usize = 1;
    proof {
        reveal(obeys_partial_cmp_spec_properties);
        let p = list@[0].partial_cmp_spec(&list@[0]);
        assert(p != Some(Ordering::Greater));
    }
    while k < list.len()
        invariant
            1 <= k <= list@.len(),
            T::obeys_partial_cmp_spec(),
            obeys_partial_cmp_spec_properties::<T>(),
            exists|i: int| 0 <= i < k && largest == list@[i],
            forall|i: int|
                0 <= i < k ==> list@[i].partial_cmp_spec(&largest) != Some(Ordering::Greater),
        decreases list@.len() - k,
    {
        let item = list[k];
        if item > largest {
            proof {
                reveal(obeys_partial_cmp_spec_properties);
                let prev = largest;
                assert forall|i: int|
                    0 <= i < k + 1 implies list@[i].partial_cmp_spec(&list@[k as int]) != Some(
                    Ordering::Greater,
                ) by {
                    let p = list@[k as int].partial_cmp_spec(&list@[k as int]);
                    if i < k {
                        let q = list@[i].partial_cmp_spec(&list@[k as int]);
                        let s = list@[k as int].partial_cmp_spec(&prev);
                        let t = list@[i].partial_cmp_spec(&prev);
                    }
                }
            }
            largest = item;
        }
        k += 1;
    }
    largest
}

/// The identity function.
pub fn identity<T>(x: T) -> (r: T)
    ensures
        r == x,
{
    x
}

/// A point whose two coordinates share one type.
pub struct Point<T> {
    pub x: T,
    pub y: T,
}

impl<T> Point<T> {
    /// Borrows the first coordinate.
    pub fn x(&self) -> (r: &T)
        ensures
            *r == self.x,
    {
        &self.x
    }

    /// Borrows the second coordinate.
    pub fn y(&self) -> (r: &T)
        ensures
            *r == self.y,
    {
        &self.y
    }

    /// A point made of this point's first coordinate and another point's,
    /// both converted into a common coordinate type.
    pub fn mixup<V, U>(self, other: Point<V>) -> (r: Point<U>)
        where T: Into<U>, V: Into<U>
        requires
            <T as IntoSpec<U>>::obeys_into_spec(),
            <V as IntoSpec<U>>::obeys_into_spec(),
        ensures
            r.x == self.x.into_spec(),
            r.y == other.x.into_spec(),
    {
        Point { x: self.x.into(), y: other.x.into() }
    }
}

} // verus!
