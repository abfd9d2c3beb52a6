//! The measuring capabilities: a distance between two scalar values, the
//! zero of the measure, and the size of an interval derived from them.

use vstd::prelude::*;
use vstd::std_specs::cmp::PartialOrdSpec;

use crate::Bound;
use crate::contain::{null_spec, Contain};

verus! {

/// The zero of a measure: what a null interval's size is.
pub trait Zero: Sized {
    /// The zero value, as a spec-level constant.
    spec fn spec_zero() -> Self;

    /// The zero value.
    fn zero() -> (r: Self)
        ensures
            r == Self::spec_zero(),
    ;
}

impl Zero for u64 {
    open spec fn spec_zero() -> u64 {
        0
    }

    fn zero() -> u64 {
        0
    }
}

/// The distance capability of a scalar type: a non-negative measure of how
/// far apart two values lie, reported in the type's own measure scalar.
pub trait Distance: Sized {
    /// The measure scalar that distances are reported in.
    type Scalar;

    /// The distance between `self` and `other`, as a spec-level value.
    spec fn spec_distance(self, other: Self) -> Self::Scalar;

    /// The distance between `self` and `other`.
    fn distance(self, other: Self) -> (r: Self::Scalar)
        ensures
            r == self.spec_distance(other),
    ;
}

impl Distance for u64 {
    type Scalar = u64;

    open spec fn spec_distance(self, other: u64) -> u64 {
        if self >= other {
            (self - other) as u64
        } else {
            (other - self) as u64
        }
    }

    fn distance(self, other: u64) -> u64 {
        if self >= other {
            self - other
        } else {
            other - self
        }
    }
}

impl Distance for i64 {
    type Scalar = u64;

    open spec fn spec_distance(self, other: i64) -> u64 {
        if self >= other {
            (self - other) as u64
        } else {
            (other - self) as u64
        }
    }

    fn distance(self, other: i64) -> u64 {
        let a: i128 = self as i128;
        let b: i128 = other as i128;
        if a >= b {
            (a - b) as u64
        } else {
            (b - a) as u64
        }
    }
}

/// The size of an interval with these bounds: zero when the interval is
/// null, undefined when a side is unbounded, and otherwise the distance
/// between the two edge values, whatever their inclusivity.
pub open spec fn size_spec<T>(low: Bound<T>, high: Bound<T>) -> Option<<T as Distance>::Scalar>
    where T: PartialOrd + Distance, T::Scalar: Zero,
{
    if null_spec(low, high) {
        Some(<T::Scalar as Zero>::spec_zero())
    } else {
        match (low, high) {
            (Bound::Unbounded, _) => None,
            (_, Bound::Unbounded) => None,
            (Bound::Included(l), Bound::Included(h)) => Some(h.spec_distance(l)),
            (Bound::Excluded(l), Bound::Included(h)) => Some(h.spec_distance(l)),
            (Bound::Included(l), Bound::Excluded(h)) => Some(h.spec_distance(l)),
            (Bound::Excluded(l), Bound::Excluded(h)) => Some(h.spec_distance(l)),
        }
    }
}

/// Interval size, for any shape over a scalar with the distance capability.
///
/// The size treats the edges as measure-zero: the open or closed state of a
/// side does not change it. A null interval has size zero; an interval with
/// an unbounded side has no size at all, which is a different outcome.
pub trait IntervalSize<T>: Contain<T> where T: PartialOrd + Copy + Distance, T::Scalar: Zero {
    /// The size of this interval, when both sides are bounded.
    fn size(&self) -> (r: Option<<T as Distance>::Scalar>)
        ensures
            T::obeys_partial_cmp_spec() ==> r == size_spec(
                self.spec_start_bound(),
                self.spec_end_bound(),
            ),
    {
        if self.is_null() {
            return Some(<T::Scalar as Zero>::zero());
        }
        match (self.start_bound(), self.end_bound()) {
            (Bound::Unbounded, _) => None,
            (_, Bound::Unbounded) => None,
            (Bound::Included(l), Bound::Included(h)) => Some((*h).distance(*l)),
            (Bound::Excluded(l), Bound::Included(h)) => Some((*h).distance(*l)),
            (Bound::Included(l), Bound::Excluded(h)) => Some((*h).distance(*l)),
            (Bound::Excluded(l), Bound::Excluded(h)) => Some((*h).distance(*l)),
        }
    }
}

impl<T, I> IntervalSize<T> for I where
    I: Contain<T>,
    T: PartialOrd + Copy + Distance,
    T::Scalar: Zero,
{

}

} // verus!
