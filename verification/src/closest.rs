//! The closest-value lookup: the in-interval value nearest to a given point.

use vstd::prelude::*;
use vstd::std_specs::cmp::PartialOrdSpec;

use crate::Bound;
use crate::contain::{relative_spec, Contain, Relative};

verus! {

/// The in-interval value closest to `item`: the point itself when it is in
/// the interval; the low edge when the point is below and that edge is
/// included; the high edge when the point is above and that edge is
/// included. An excluded or absent edge on the relevant side admits no
/// closest value, and a null interval admits none either.
pub open spec fn closest_spec<T: PartialOrd>(low: Bound<T>, high: Bound<T>, item: T) -> Option<T> {
    match relative_spec(low, high, item) {
        None => None,
        Some(Relative::In) => Some(item),
        Some(Relative::Below) => match low {
            Bound::Included(l) => Some(l),
            _ => None,
        },
        Some(Relative::Above) => match high {
            Bound::Included(h) => Some(h),
            _ => None,
        },
    }
}

/// Closest-value lookup, for any shape whose scalar can be copied out.
pub trait ClosestValue<T: PartialOrd + Copy>: Contain<T> {
    /// The value within this interval that lies closest to `t`.
    fn closest(&self, t: T) -> (r: Option<T>)
        ensures
            T::obeys_partial_cmp_spec() ==> r == closest_spec(
                self.spec_start_bound(),
                self.spec_end_bound(),
                t,
            ),
    {
        match self.relative(&t) {
            None => None,
            Some(Relative::In) => Some(t),
            Some(Relative::Below) => match self.start_bound() {
                Bound::Included(left) => Some(*left),
                Bound::Excluded(_) => None,
                Bound::Unbounded => {
                    // A point is never classified below an interval whose
                    // low side is unbounded.
                    assert(false);
                    None
                },
            },
            Some(Relative::Above) => match self.end_bound() {
                Bound::Included(right) => Some(*right),
                Bound::Excluded(_) => None,
                Bound::Unbounded => {
                    // A point is never classified above an interval whose
                    // high side is unbounded.
                    assert(false);
                    None
                },
            },
        }
    }
}

impl<T: PartialOrd + Copy, I: Contain<T>> ClosestValue<T> for I {

}

} // verus!
