//! The cut algebra: four directional narrowing operations, each consuming an
//! interval and an edge value and producing a value of a new, statically
//! determined shape.
//!
//! A cut keeps the untouched side as it was. On the cut side the new edge is
//! the numerically tighter of the given edge and the existing edge, if any
//! (the minimum for a below cut's high edge, the maximum for an above cut's
//! low edge), and the inclusivity is always exactly what the operation name
//! requests, whichever of the two candidates won the comparison.

use vstd::prelude::*;
use vstd::std_specs::cmp::{OrdSpec, PartialOrdSpec};
use std::cmp::Ordering;

use crate::{
    Bound, Full, StartExclusive, StartInclusive, EndExclusive, EndInclusive,
    StartInclusiveEndInclusive, StartExclusiveEndInclusive, StartInclusiveEndExclusive,
    StartExclusiveEndExclusive,
};
use crate::contain::Contain;

verus! {

/// The edge value a below cut leaves as the new high edge: the minimum of the
/// given edge and the existing high edge, if any, with the given edge kept on
/// a tie.
pub open spec fn cut_edge_min<T: Ord>(prior_high: Bound<T>, edge: T) -> T {
    match prior_high {
        Bound::Unbounded => edge,
        Bound::Included(h) => if h.cmp_spec(&edge) == Ordering::Less {
            h
        } else {
            edge
        },
        Bound::Excluded(h) => if h.cmp_spec(&edge) == Ordering::Less {
            h
        } else {
            edge
        },
    }
}

/// The edge value an above cut leaves as the new low edge: the maximum of the
/// given edge and the existing low edge, if any, with the given edge kept on
/// a tie.
pub open spec fn cut_edge_max<T: Ord>(prior_low: Bound<T>, edge: T) -> T {
    match prior_low {
        Bound::Unbounded => edge,
        Bound::Included(l) => if edge.cmp_spec(&l) == Ordering::Less {
            l
        } else {
            edge
        },
        Bound::Excluded(l) => if edge.cmp_spec(&l) == Ordering::Less {
            l
        } else {
            edge
        },
    }
}

/// Law: cutting the full interval below-inclusively at `edge` and then
/// above-inclusively at the same `edge` leaves the closed single-point
/// interval with `edge` included on both sides, and that interval is not
/// null when the scalar's comparison is lawful: the tie-break keeps the
/// boundary point.
pub proof fn lemma_full_cut_round_trip<T: Ord>(edge: T)
    requires
        vstd::laws_cmp::obeys_partial_cmp_spec_properties::<T>(),
    ensures
        cut_edge_min(Bound::<T>::Unbounded, edge) == edge,
        cut_edge_max(Bound::<T>::Unbounded, edge) == edge,
        !crate::contain::null_spec(Bound::Included(edge), Bound::Included(edge)),
{
    reveal(vstd::laws_cmp::obeys_partial_cmp_spec_properties);
    if edge.partial_cmp_spec(&edge) == Some(Ordering::Greater) {
        assert(edge.partial_cmp_spec(&edge) == Some(Ordering::Less));
        assert(false);
    }
}

/// Cut the interval below `edge`, keeping `edge` itself: the result's high
/// bound is included at the tighter of `edge` and the existing high edge, and
/// its low bound is the receiver's.
pub trait BelowInclusive<T: Ord>: Contain<T> + Sized {
    /// The statically determined shape of the cut interval.
    type Interval: Contain<T>;

    /// Narrow this interval to the part at or below `edge`.
    fn below_inclusive(self, edge: T) -> (r: Self::Interval)
        ensures
            T::obeys_cmp_spec() ==> r.spec_start_bound() == self.spec_start_bound(),
            T::obeys_cmp_spec() ==> r.spec_end_bound() == Bound::Included(
                cut_edge_min(self.spec_end_bound(), edge),
            ),
    ;
}

/// Cut the interval below `edge`, leaving `edge` itself out: the result's
/// high bound is excluded at the tighter of `edge` and the existing high
/// edge, and its low bound is the receiver's.
pub trait BelowExclusive<T: Ord>: Contain<T> + Sized {
    /// The statically determined shape of the cut interval.
    type Interval: Contain<T>;

    /// Narrow this interval to the part strictly below `edge`.
    fn below_exclusive(self, edge: T) -> (r: Self::Interval)
        ensures
            T::obeys_cmp_spec() ==> r.spec_start_bound() == self.spec_start_bound(),
            T::obeys_cmp_spec() ==> r.spec_end_bound() == Bound::Excluded(
                cut_edge_min(self.spec_end_bound(), edge),
            ),
    ;
}

/// Cut the interval above `edge`, keeping `edge` itself: the result's low
/// bound is included at the tighter of `edge` and the existing low edge, and
/// its high bound is the receiver's.
pub trait AboveInclusive<T: Ord>: Contain<T> + Sized {
    /// The statically determined shape of the cut interval.
    type Interval: Contain<T>;

    /// Narrow this interval to the part at or above `edge`.
    fn above_inclusive(self, edge: T) -> (r: Self::Interval)
        ensures
            T::obeys_cmp_spec() ==> r.spec_end_bound() == self.spec_end_bound(),
            T::obeys_cmp_spec() ==> r.spec_start_bound() == Bound::Included(
                cut_edge_max(self.spec_start_bound(), edge),
            ),
    ;
}

/// Cut the interval above `edge`, leaving `edge` itself out: the result's
/// low bound is excluded at the tighter of `edge` and the existing low edge,
/// and its high bound is the receiver's.
pub trait AboveExclusive<T: Ord>: Contain<T> + Sized {
    /// The statically determined shape of the cut interval.
    type Interval: Contain<T>;

    /// Narrow this interval to the part strictly above `edge`.
    fn above_exclusive(self, edge: T) -> (r: Self::Interval)
        ensures
            T::obeys_cmp_spec() ==> r.spec_end_bound() == self.spec_end_bound(),
            T::obeys_cmp_spec() ==> r.spec_start_bound() == Bound::Excluded(
                cut_edge_max(self.spec_start_bound(), edge),
            ),
    ;
}

impl<T: Ord> BelowInclusive<T> for Full {
    type Interval = EndInclusive<T>;

    fn below_inclusive(self, edge: T) -> Self::Interval {
        EndInclusive { end: edge }
    }
}

impl<T: Ord> BelowExclusive<T> for Full {
    type Interval = EndExclusive<T>;

    fn below_exclusive(self, edge: T) -> Self::Interval {
        EndExclusive { end: edge }
    }
}

impl<T: Ord> AboveInclusive<T> for Full {
    type Interval = StartInclusive<T>;

    fn above_inclusive(self, edge: T) -> Self::Interval {
        StartInclusive { start: edge }
    }
}

impl<T: Ord> AboveExclusive<T> for Full {
    type Interval = StartExclusive<T>;

    fn above_exclusive(self, edge: T) -> Self::Interval {
        StartExclusive { start: edge }
    }
}

impl<T: Ord> BelowInclusive<T> for EndExclusive<T> {
    type Interval = EndInclusive<T>;

    fn below_inclusive(self, edge: T) -> Self::Interval {
        EndInclusive { end: edge.min(self.end) }
    }
}

impl<T: Ord> BelowExclusive<T> for EndExclusive<T> {
    type Interval = EndExclusive<T>;

    fn below_exclusive(self, edge: T) -> Self::Interval {
        EndExclusive { end: edge.min(self.end) }
    }
}

impl<T: Ord> AboveInclusive<T> for EndExclusive<T> {
    type Interval = StartInclusiveEndExclusive<T>;

    fn above_inclusive(self, edge: T) -> Self::Interval {
        StartInclusiveEndExclusive { start: edge, end: self.end }
    }
}

impl<T: Ord> AboveExclusive<T> for EndExclusive<T> {
    type Interval = StartExclusiveEndExclusive<T>;

    fn above_exclusive(self, edge: T) -> Self::Interval {
        StartExclusiveEndExclusive { start: edge, end: self.end }
    }
}

impl<T: Ord> BelowInclusive<T> for EndInclusive<T> {
    type Interval = EndInclusive<T>;

    fn below_inclusive(self, edge: T) -> Self::Interval {
        EndInclusive { end: edge.min(self.end) }
    }
}

impl<T: Ord> BelowExclusive<T> for EndInclusive<T> {
    type Interval = EndExclusive<T>;

    fn below_exclusive(self, edge: T) -> Self::Interval {
        EndExclusive { end: edge.min(self.end) }
    }
}

impl<T: Ord> AboveInclusive<T> for EndInclusive<T> {
    type Interval = StartInclusiveEndInclusive<T>;

    fn above_inclusive(self, edge: T) -> Self::Interval {
        StartInclusiveEndInclusive { start: edge, end: self.end }
    }
}

impl<T: Ord> AboveExclusive<T> for EndInclusive<T> {
    type Interval = StartExclusiveEndInclusive<T>;

    fn above_exclusive(self, edge: T) -> Self::Interval {
        StartExclusiveEndInclusive { start: edge, end: self.end }
    }
}

impl<T: Ord> BelowInclusive<T> for StartExclusive<T> {
    type Interval = StartExclusiveEndInclusive<T>;

    fn below_inclusive(self, edge: T) -> Self::Interval {
        StartExclusiveEndInclusive { start: self.start, end: edge }
    }
}

impl<T: Ord> BelowExclusive<T> for StartExclusive<T> {
    type Interval = StartExclusiveEndExclusive<T>;

    fn below_exclusive(self, edge: T) -> Self::Interval {
        StartExclusiveEndExclusive { start: self.start, end: edge }
    }
}

impl<T: Ord> AboveInclusive<T> for StartExclusive<T> {
    type Interval = StartInclusive<T>;

    fn above_inclusive(self, edge: T) -> Self::Interval {
        StartInclusive { start: self.start.max(edge) }
    }
}

impl<T: Ord> AboveExclusive<T> for StartExclusive<T> {
    type Interval = StartExclusive<T>;

    fn above_exclusive(self, edge: T) -> Self::Interval {
        StartExclusive { start: self.start.max(edge) }
    }
}

impl<T: Ord> BelowInclusive<T> for StartInclusive<T> {
    type Interval = StartInclusiveEndInclusive<T>;

    fn below_inclusive(self, edge: T) -> Self::Interval {
        StartInclusiveEndInclusive { start: self.start, end: edge }
    }
}

impl<T: Ord> BelowExclusive<T> for StartInclusive<T> {
    type Interval = StartInclusiveEndExclusive<T>;

    fn below_exclusive(self, edge: T) -> Self::Interval {
        StartInclusiveEndExclusive { start: self.start, end: edge }
    }
}

impl<T: Ord> AboveInclusive<T> for StartInclusive<T> {
    type Interval = StartInclusive<T>;

    fn above_inclusive(self, edge: T) -> Self::Interval {
        StartInclusive { start: self.start.max(edge) }
    }
}

impl<T: Ord> AboveExclusive<T> for StartInclusive<T> {
    type Interval = StartExclusive<T>;

    fn above_exclusive(self, edge: T) -> Self::Interval {
        StartExclusive { start: self.start.max(edge) }
    }
}

impl<T: Ord> BelowInclusive<T> for StartInclusiveEndInclusive<T> {
    type Interval = StartInclusiveEndInclusive<T>;

    fn below_inclusive(self, edge: T) -> Self::Interval {
        StartInclusiveEndInclusive { start: self.start, end: edge.min(self.end) }
    }
}

impl<T: Ord> BelowExclusive<T> for StartInclusiveEndInclusive<T> {
    type Interval = StartInclusiveEndExclusive<T>;

    fn below_exclusive(self, edge: T) -> Self::Interval {
        StartInclusiveEndExclusive { start: self.start, end: edge.min(self.end) }
    }
}

impl<T: Ord> AboveInclusive<T> for StartInclusiveEndInclusive<T> {
    type Interval = StartInclusiveEndInclusive<T>;

    fn above_inclusive(self, edge: T) -> Self::Interval {
        StartInclusiveEndInclusive { start: self.start.max(edge), end: self.end }
    }
}

impl<T: Ord> AboveExclusive<T> for StartInclusiveEndInclusive<T> {
    type Interval = StartExclusiveEndInclusive<T>;

    fn above_exclusive(self, edge: T) -> Self::Interval {
        StartExclusiveEndInclusive { start: self.start.max(edge), end: self.end }
    }
}

impl<T: Ord> BelowInclusive<T> for StartExclusiveEndInclusive<T> {
    type Interval = StartExclusiveEndInclusive<T>;

    fn below_inclusive(self, edge: T) -> Self::Interval {
        StartExclusiveEndInclusive { start: self.start, end: edge.min(self.end) }
    }
}

impl<T: Ord> BelowExclusive<T> for StartExclusiveEndInclusive<T> {
    type Interval = StartExclusiveEndExclusive<T>;

    fn below_exclusive(self, edge: T) -> Self::Interval {
        StartExclusiveEndExclusive { start: self.start, end: edge.min(self.end) }
    }
}

impl<T: Ord> AboveInclusive<T> for StartExclusiveEndInclusive<T> {
    type Interval = StartInclusiveEndInclusive<T>;

    fn above_inclusive(self, edge: T) -> Self::Interval {
        StartInclusiveEndInclusive { start: self.start.max(edge), end: self.end }
    }
}

impl<T: Ord> AboveExclusive<T> for StartExclusiveEndInclusive<T> {
    type Interval = StartExclusiveEndInclusive<T>;

    fn above_exclusive(self, edge: T) -> Self::Interval {
        StartExclusiveEndInclusive { start: self.start.max(edge), end: self.end }
    }
}

impl<T: Ord> BelowInclusive<T> for StartInclusiveEndExclusive<T> {
    type Interval = StartInclusiveEndInclusive<T>;

    fn below_inclusive(self, edge: T) -> Self::Interval {
        StartInclusiveEndInclusive { start: self.start, end: edge.min(self.end) }
    }
}

impl<T: Ord> BelowExclusive<T> for StartInclusiveEndExclusive<T> {
    type Interval = StartInclusiveEndExclusive<T>;

    fn below_exclusive(self, edge: T) -> Self::Interval {
        StartInclusiveEndExclusive { start: self.start, end: edge.min(self.end) }
    }
}

impl<T: Ord> AboveInclusive<T> for StartInclusiveEndExclusive<T> {
    type Interval = StartInclusiveEndExclusive<T>;

    fn above_inclusive(self, edge: T) -> Self::Interval {
        StartInclusiveEndExclusive { start: self.start.max(edge), end: self.end }
    }
}

impl<T: Ord> AboveExclusive<T> for StartInclusiveEndExclusive<T> {
    type Interval = StartExclusiveEndExclusive<T>;

    fn above_exclusive(self, edge: T) -> Self::Interval {
        StartExclusiveEndExclusive { start: self.start.max(edge), end: self.end }
    }
}

impl<T: Ord> BelowInclusive<T> for StartExclusiveEndExclusive<T> {
    type Interval = StartExclusiveEndInclusive<T>;

    fn below_inclusive(self, edge: T) -> Self::Interval {
        StartExclusiveEndInclusive { start: self.start, end: edge.min(self.end) }
    }
}

impl<T: Ord> BelowExclusive<T> for StartExclusiveEndExclusive<T> {
    type Interval = StartExclusiveEndExclusive<T>;

    fn below_exclusive(self, edge: T) -> Self::Interval {
        StartExclusiveEndExclusive { start: self.start, end: edge.min(self.end) }
    }
}

impl<T: Ord> AboveInclusive<T> for StartExclusiveEndExclusive<T> {
    type Interval = StartInclusiveEndExclusive<T>;

    fn above_inclusive(self, edge: T) -> Self::Interval {
        StartInclusiveEndExclusive { start: self.start.max(edge), end: self.end }
    }
}

impl<T: Ord> AboveExclusive<T> for StartExclusiveEndExclusive<T> {
    type Interval = StartExclusiveEndExclusive<T>;

    fn above_exclusive(self, edge: T) -> Self::Interval {
        StartExclusiveEndExclusive { start: self.start.max(edge), end: self.end }
    }
}

} // verus!
