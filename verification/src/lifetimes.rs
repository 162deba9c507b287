//! Functions whose signatures tie borrowed arguments and results together.
use core::cmp::Ordering;
use vstd::prelude::*;
use vstd::std_specs::cmp::PartialOrdSpec;
use vstd::string::StringSliceAdditionalSpecFns;

verus! {

/// The longer of two string slices, measured in bytes; on a tie the second
/// wins.
pub fn longest<'a>(x: &'a str, y: &'a str) -> (r: &'a str)
    ensures
        x.spec_bytes().len() as usize > y.spec_bytes().len() as usize ==> r@ == x@,
        x.spec_bytes().len() as usize <= y.spec_bytes().len() as usize ==> r@ == y@,
{
    if x.len() > y.len() {
        x
    } else {
        y
    }
}

/// A borrowed excerpt of a longer text.
pub struct ImportantExcerpt<'a> {
    pub part: &'a str,
}

impl<'a> ImportantExcerpt<'a> {
    /// The fixed importance level of an excerpt.
    pub fn level(&self) -> (r: i32)
        ensures
            r == 3,
    {
        3
    }
}

/// Length in bytes of a borrowed string slice.
pub fn calculate_length(s: &str) -> (r: usize)
    ensures
        r == s.spec_bytes().len() as usize,
{
    s.len()
}

/// Picks among three borrowed values: the first that is strictly greater
/// than both others, or the third when neither of the first two is.
pub fn compare_and_choose<'a, T>(a: &'a T, b: &'a T, c: &'a T) -> (r: &'a T)
    where T: PartialOrd
    requires
        T::obeys_partial_cmp_spec(),
    ensures
        ({
            let agb = a.partial_cmp_spec(b) == Some(Ordering::Greater);
            let agc = a.partial_cmp_spec(c) == Some(Ordering::Greater);
            let bga = b.partial_cmp_spec(a) == Some(Ordering::Greater);
            let bgc = b.partial_cmp_spec(c) == Some(Ordering::Greater);
            &&& agb && agc ==> r == a
            &&& !(agb && agc) && bga && bgc ==> r == b
            &&& !(agb && agc) && !(bga && bgc) ==> r == c
        }),
{
    if a > b && a > c {
        a
    } else if b > a && b > c {
        b
    } else {
        c
    }
}

} // verus!
