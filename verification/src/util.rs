//! Small helpers of the web client: clamping and sequence numbers.
use vstd::prelude::*;
use core::cmp::Ordering;
use vstd::std_specs::cmp::PartialOrdSpec;

verus! {

/// What `clamp` gives for a type whose comparison follows its specification.
pub open spec fn clamp_spec<T: PartialOrd>(min: T, max: T, val: T) -> T {
    if val.partial_cmp_spec(&min) == Some(Ordering::Less) {
        min
    } else if val.partial_cmp_spec(&max) == Some(Ordering::Greater) {
        max
    } else {
        val
    }
}

/// `val`, moved into the range from `min` to `max`: `min` if it compares
/// below `min`, else `max` if it compares above `max`, else `val` itself.
pub fn clamp<T: PartialOrd>(min: T, max: T, val: T) -> (r: T)
    ensures
        r == min || r == max || r == val,
        T::obeys_partial_cmp_spec() ==> r == clamp_spec(min, max, val),
{
    if val < min {
        min
    } else if val > max {
        max
    } else {
        val
    }
}

/// For integers with `min <= max`, clamping lands in the range, and leaves a
/// value that is already in the range unchanged.
pub proof fn lemma_clamp_i64(min: i64, max: i64, val: i64)
    requires
        min <= max,
    ensures
        min <= clamp_spec(min, max, val) <= max,
        min <= val <= max ==> clamp_spec(min, max, val) == val,
        val < min ==> clamp_spec(min, max, val) == min,
        val > max ==> clamp_spec(min, max, val) == max,
{
}

/// A generator of sequence numbers: 1, 2, 3, ...
#[derive(Debug)]
pub struct Sequence(usize);

impl View for Sequence {
    type V = nat;

    /// The last number generated, or 0 before the first.
    closed spec fn view(&self) -> nat {
        self.0 as nat
    }
}

/// A generator never counts past the largest `usize`.
pub proof fn lemma_sequence_fits(s: Sequence)
    ensures
        s@ <= usize::MAX,
{
}

impl Sequence {
    /// A generator that has not generated anything yet.
    pub fn new() -> (r: Self)
        ensures
            r@ == 0,
    {
        Sequence(0)
    }

    /// Returns the last sequence number generated:
    pub fn last(&self) -> (r: Option<usize>)
        ensures
            r == (if self@ == 0 { None } else { Some(self@ as usize) }),
            r matches Some(n) ==> n > 0,
    {
        if self.0 == 0 {
            None
        } else {
            Some(self.0)
        }
    }

    /// Generates a new sequence number, one more than the last.
    pub fn next(&mut self) -> (r: usize)
        requires
            old(self)@ < usize::MAX,
        ensures
            final(self)@ == old(self)@ + 1,
            r == final(self)@,
            r > 0,
    {
        proof { assert(self@ == self.0 as nat); }
        self.0 = self.0 + 1;
        self.0
    }
}

} // verus!
