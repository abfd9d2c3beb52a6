//! Intervals over an ordered scalar type, with one statically distinct shape
//! per combination of bounded/unbounded and inclusive/exclusive side.
//!
//! An interval is queried through the [`Contain`] capability (null check,
//! relative position of a point, containment), narrowed through the four cut
//! operations of [`cut`], and measured through [`IntervalSize`] and
//! [`ClosestValue`] when the scalar supplies a [`Distance`] capability.

use vstd::prelude::*;

pub mod closest;
pub mod contain;
pub mod cut;
pub mod distance;

pub use closest::ClosestValue;
pub use contain::{Contain, Relative};
pub use cut::{AboveExclusive, AboveInclusive, BelowExclusive, BelowInclusive};
pub use distance::{Distance, IntervalSize, Zero};

verus! {

/// One side of an interval: absent, or an edge value that is itself inside
/// (`Included`) or outside (`Excluded`) the interval.
#[derive(Clone, Copy, Debug, PartialEq, Eq)]
pub enum Bound<T> {
    /// No edge on this side.
    Unbounded,
    /// An edge value that belongs to the interval.
    Included(T),
    /// An edge value that does not belong to the interval.
    Excluded(T),
}

/// The value form of a borrowed bound, for contracts: the same classification
/// with the edge taken out of the reference.
pub open spec fn bound_value<T>(b: Bound<&T>) -> Bound<T> {
    match b {
        Bound::Unbounded => Bound::Unbounded,
        Bound::Included(v) => Bound::Included(*v),
        Bound::Excluded(v) => Bound::Excluded(*v),
    }
}

/// An unbounded interval: both sides absent.
#[derive(Clone, Copy, Debug, PartialEq, Eq)]
pub struct Full;

/// An interval bounded exclusively below only: (start, ->
#[derive(Clone, Copy, Debug, PartialEq, Eq)]
pub struct StartExclusive<A> {
    /// The low edge, outside the interval.
    pub start: A,
}

/// An interval bounded inclusively below only: [start, ->
#[derive(Clone, Copy, Debug, PartialEq, Eq)]
pub struct StartInclusive<A> {
    /// The low edge, inside the interval.
    pub start: A,
}

/// An interval bounded exclusively above only: <-, end)
#[derive(Clone, Copy, Debug, PartialEq, Eq)]
pub struct EndExclusive<A> {
    /// The high edge, outside the interval.
    pub end: A,
}

/// An interval bounded inclusively above only: <-, end]
#[derive(Clone, Copy, Debug, PartialEq, Eq)]
pub struct EndInclusive<A> {
    /// The high edge, inside the interval.
    pub end: A,
}

/// An interval bounded inclusively on both sides: [start, end]
#[derive(Clone, Copy, Debug, PartialEq, Eq)]
pub struct StartInclusiveEndInclusive<A> {
    /// The low edge, inside the interval.
    pub start: A,
    /// The high edge, inside the interval.
    pub end: A,
}

/// An interval bounded exclusively below and inclusively above: (start, end]
#[derive(Clone, Copy, Debug, PartialEq, Eq)]
pub struct StartExclusiveEndInclusive<A> {
    /// The low edge, outside the interval.
    pub start: A,
    /// The high edge, inside the interval.
    pub end: A,
}

/// An interval bounded inclusively below and exclusively above: [start, end)
#[derive(Clone, Copy, Debug, PartialEq, Eq)]
pub struct StartInclusiveEndExclusive<A> {
    /// The low edge, inside the interval.
    pub start: A,
    /// The high edge, outside the interval.
    pub end: A,
}

/// An interval bounded exclusively on both sides: (start, end)
#[derive(Clone, Copy, Debug, PartialEq, Eq)]
pub struct StartExclusiveEndExclusive<A> {
    /// The low edge, outside the interval.
    pub start: A,
    /// The high edge, outside the interval.
    pub end: A,
}

} // verus!
