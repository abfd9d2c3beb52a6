//! The containment capability: each interval shape exposes its two bounds,
//! and the null check, relative-position classification and containment test
//! are derived from them once, here.

use vstd::prelude::*;
use vstd::std_specs::cmp::PartialOrdSpec;
use std::cmp::Ordering;

use crate::{
    Bound, bound_value, Full, StartExclusive, StartInclusive, EndExclusive, EndInclusive,
    StartInclusiveEndInclusive, StartExclusiveEndInclusive, StartInclusiveEndExclusive,
    StartExclusiveEndExclusive,
};

verus! {

/// `a` is strictly less than `b` by the scalar's partial order.
pub open spec fn lt_spec<T: PartialOrd>(a: T, b: T) -> bool {
    a.partial_cmp_spec(&b) == Some(Ordering::Less)
}

/// `a` is less than or comparably equal to `b` by the scalar's partial order.
pub open spec fn le_spec<T: PartialOrd>(a: T, b: T) -> bool {
    a.partial_cmp_spec(&b) matches Some(Ordering::Less | Ordering::Equal)
}

/// `a` is strictly greater than `b` by the scalar's partial order.
pub open spec fn gt_spec<T: PartialOrd>(a: T, b: T) -> bool {
    a.partial_cmp_spec(&b) == Some(Ordering::Greater)
}

/// `a` is greater than or comparably equal to `b` by the scalar's partial order.
pub open spec fn ge_spec<T: PartialOrd>(a: T, b: T) -> bool {
    a.partial_cmp_spec(&b) matches Some(Ordering::Greater | Ordering::Equal)
}

/// An interval with these two bounds contains no point: both sides are
/// bounded and the effective comparison fails. With two included edges the
/// interval keeps the single point `low == high`, so only a strictly greater
/// low edge empties it; any excluded edge also empties the equal case.
pub open spec fn null_spec<T: PartialOrd>(low: Bound<T>, high: Bound<T>) -> bool {
    match (low, high) {
        (Bound::Unbounded, _) => false,
        (_, Bound::Unbounded) => false,
        (Bound::Included(l), Bound::Included(h)) => gt_spec(l, h),
        (Bound::Excluded(l), Bound::Excluded(h)) => ge_spec(l, h),
        (Bound::Included(l), Bound::Excluded(h)) => ge_spec(l, h),
        (Bound::Excluded(l), Bound::Included(h)) => ge_spec(l, h),
    }
}

/// The point lies on the low side of the interval, outside it.
pub open spec fn below_spec<T: PartialOrd>(low: Bound<T>, item: T) -> bool {
    match low {
        Bound::Unbounded => false,
        Bound::Included(l) => lt_spec(item, l),
        Bound::Excluded(l) => le_spec(item, l),
    }
}

/// The point lies on the high side of the interval, outside it.
pub open spec fn above_spec<T: PartialOrd>(high: Bound<T>, item: T) -> bool {
    match high {
        Bound::Unbounded => false,
        Bound::Included(h) => gt_spec(item, h),
        Bound::Excluded(h) => ge_spec(item, h),
    }
}

/// Where the point stands relative to an interval with these bounds: no
/// classification for a null interval, otherwise exactly one of the three
/// positions, with the below test taking precedence over the above test.
pub open spec fn relative_spec<T: PartialOrd>(
    low: Bound<T>,
    high: Bound<T>,
    item: T,
) -> Option<Relative> {
    if null_spec(low, high) {
        None
    } else if below_spec(low, item) {
        Some(Relative::Below)
    } else if above_spec(high, item) {
        Some(Relative::Above)
    } else {
        Some(Relative::In)
    }
}

/// The point is classified as inside the interval.
pub open spec fn contains_spec<T: PartialOrd>(low: Bound<T>, high: Bound<T>, item: T) -> bool {
    relative_spec(low, high, item) == Some(Relative::In)
}

/// Law: a double-edge interval whose low edge is strictly greater than its
/// high edge is null, whatever the inclusivity of either side.
pub proof fn lemma_inverted_edges_null<T: PartialOrd>(low: T, high: T)
    requires
        gt_spec(low, high),
    ensures
        null_spec(Bound::Included(low), Bound::Included(high)),
        null_spec(Bound::Included(low), Bound::Excluded(high)),
        null_spec(Bound::Excluded(low), Bound::Included(high)),
        null_spec(Bound::Excluded(low), Bound::Excluded(high)),
{
}

/// Law: an interval with at least one unbounded side is never null.
pub proof fn lemma_unbounded_side_not_null<T: PartialOrd>(low: Bound<T>, high: Bound<T>)
    requires
        low is Unbounded || high is Unbounded,
    ensures
        !null_spec(low, high),
{
}

/// Law: over a non-null interval, every point is classified, the three
/// positions partition the domain (the below test first, then the above
/// test, and `In` for the rest), and containment is exactly classification
/// as `In`.
pub proof fn lemma_relative_partition<T: PartialOrd>(low: Bound<T>, high: Bound<T>, item: T)
    requires
        !null_spec(low, high),
    ensures
        relative_spec(low, high, item) is Some,
        (relative_spec(low, high, item) == Some(Relative::Below)) <==> below_spec(low, item),
        (relative_spec(low, high, item) == Some(Relative::Above)) <==> (!below_spec(low, item)
            && above_spec(high, item)),
        (relative_spec(low, high, item) == Some(Relative::In)) <==> (!below_spec(low, item)
            && !above_spec(high, item)),
        contains_spec(low, high, item) == (relative_spec(low, high, item) == Some(Relative::In)),
{
}

/// Relative position of a point with respect to an interval.
#[derive(Clone, Copy, Debug, PartialEq, Eq)]
pub enum Relative {
    /// Below the interval.
    Below,
    /// In the interval.
    In,
    /// Above the interval.
    Above,
}

impl Relative {
    /// Whether this position is `In`.
    pub fn is_in(&self) -> (r: bool)
        ensures
            r == (*self is In),
    {
        matches!(self, Relative::In)
    }

    /// Whether this position is `Below`.
    pub fn is_below(&self) -> (r: bool)
        ensures
            r == (*self is Below),
    {
        matches!(self, Relative::Below)
    }

    /// Whether this position is `Above`.
    pub fn is_above(&self) -> (r: bool)
        ensures
            r == (*self is Above),
    {
        matches!(self, Relative::Above)
    }
}

/// The containment capability. A shape supplies its two bounds, in spec and
/// in executable form; the null check, the relative-position classification
/// and the containment test follow from them for every shape at once.
///
/// The derived results are pinned down whenever the scalar's comparison
/// operators agree with its `partial_cmp_spec` model, which holds of the
/// primitive integer types.
pub trait Contain<T: PartialOrd> {
    /// The low bound of this interval, as a spec-level value.
    spec fn spec_start_bound(&self) -> Bound<T>;

    /// The high bound of this interval, as a spec-level value.
    spec fn spec_end_bound(&self) -> Bound<T>;

    /// The low bound of this interval.
    fn start_bound(&self) -> (b: Bound<&T>)
        ensures
            bound_value(b) == self.spec_start_bound(),
    ;

    /// The high bound of this interval.
    fn end_bound(&self) -> (b: Bound<&T>)
        ensures
            bound_value(b) == self.spec_end_bound(),
    ;

    /// Whether this interval contains no point. An interval with an
    /// unbounded side is never null.
    fn is_null(&self) -> (r: bool)
        ensures
            T::obeys_partial_cmp_spec() ==> r == null_spec(
                self.spec_start_bound(),
                self.spec_end_bound(),
            ),
            self.spec_start_bound() is Unbounded || self.spec_end_bound() is Unbounded ==> !r,
    {
        match (self.start_bound(), self.end_bound()) {
            (Bound::Unbounded, _) => false,
            (_, Bound::Unbounded) => false,
            (Bound::Included(start), Bound::Included(end)) => start > end,
            (Bound::Excluded(start), Bound::Excluded(end)) => start >= end,
            (Bound::Included(start), Bound::Excluded(end)) => start >= end,
            (Bound::Excluded(start), Bound::Included(end)) => start >= end,
        }
    }

    /// Where `item` stands relative to this interval: `None` when the
    /// interval is null, otherwise exactly one of the three positions.
    fn relative(&self, item: &T) -> (r: Option<Relative>)
        ensures
            T::obeys_partial_cmp_spec() ==> r == relative_spec(
                self.spec_start_bound(),
                self.spec_end_bound(),
                *item,
            ),
            r == Some(Relative::Below) ==> !(self.spec_start_bound() is Unbounded),
            r == Some(Relative::Above) ==> !(self.spec_end_bound() is Unbounded),
    {
        if self.is_null() {
            return None;
        }
        let res = match (self.start_bound(), self.end_bound()) {
            (Bound::Included(start), _) if item < start => Relative::Below,
            (Bound::Excluded(start), _) if item <= start => Relative::Below,
            (_, Bound::Included(end)) if item > end => Relative::Above,
            (_, Bound::Excluded(end)) if item >= end => Relative::Above,
            _ => Relative::In,
        };
        Some(res)
    }

    /// Whether this interval contains `item`. A null interval contains
    /// nothing.
    fn contains(&self, item: &T) -> (r: bool)
        ensures
            T::obeys_partial_cmp_spec() ==> r == contains_spec(
                self.spec_start_bound(),
                self.spec_end_bound(),
                *item,
            ),
    {
        match self.relative(item) {
            Some(rel) => rel.is_in(),
            None => false,
        }
    }
}

impl<T: PartialOrd> Contain<T> for Full {
    open spec fn spec_start_bound(&self) -> Bound<T> {
        Bound::Unbounded
    }

    open spec fn spec_end_bound(&self) -> Bound<T> {
        Bound::Unbounded
    }

    fn start_bound(&self) -> (b: Bound<&T>) {
        Bound::Unbounded
    }

    fn end_bound(&self) -> (b: Bound<&T>) {
        Bound::Unbounded
    }
}

impl<T: PartialOrd> Contain<T> for StartExclusive<T> {
    open spec fn spec_start_bound(&self) -> Bound<T> {
        Bound::Excluded(self.start)
    }

    open spec fn spec_end_bound(&self) -> Bound<T> {
        Bound::Unbounded
    }

    fn start_bound(&self) -> (b: Bound<&T>) {
        Bound::Excluded(&self.start)
    }

    fn end_bound(&self) -> (b: Bound<&T>) {
        Bound::Unbounded
    }
}

impl<T: PartialOrd> Contain<T> for StartInclusive<T> {
    open spec fn spec_start_bound(&self) -> Bound<T> {
        Bound::Included(self.start)
    }

    open spec fn spec_end_bound(&self) -> Bound<T> {
        Bound::Unbounded
    }

    fn start_bound(&self) -> (b: Bound<&T>) {
        Bound::Included(&self.start)
    }

    fn end_bound(&self) -> (b: Bound<&T>) {
        Bound::Unbounded
    }
}

impl<T: PartialOrd> Contain<T> for EndExclusive<T> {
    open spec fn spec_start_bound(&self) -> Bound<T> {
        Bound::Unbounded
    }

    open spec fn spec_end_bound(&self) -> Bound<T> {
        Bound::Excluded(self.end)
    }

    fn start_bound(&self) -> (b: Bound<&T>) {
        Bound::Unbounded
    }

    fn end_bound(&self) -> (b: Bound<&T>) {
        Bound::Excluded(&self.end)
    }
}

impl<T: PartialOrd> Contain<T> for EndInclusive<T> {
    open spec fn spec_start_bound(&self) -> Bound<T> {
        Bound::Unbounded
    }

    open spec fn spec_end_bound(&self) -> Bound<T> {
        Bound::Included(self.end)
    }

    fn start_bound(&self) -> (b: Bound<&T>) {
        Bound::Unbounded
    }

    fn end_bound(&self) -> (b: Bound<&T>) {
        Bound::Included(&self.end)
    }
}

impl<T: PartialOrd> Contain<T> for StartInclusiveEndInclusive<T> {
    open spec fn spec_start_bound(&self) -> Bound<T> {
        Bound::Included(self.start)
    }

    open spec fn spec_end_bound(&self) -> Bound<T> {
        Bound::Included(self.end)
    }

    fn start_bound(&self) -> (b: Bound<&T>) {
        Bound::Included(&self.start)
    }

    fn end_bound(&self) -> (b: Bound<&T>) {
        Bound::Included(&self.end)
    }
}

impl<T: PartialOrd> Contain<T> for StartExclusiveEndInclusive<T> {
    open spec fn spec_start_bound(&self) -> Bound<T> {
        Bound::Excluded(self.start)
    }

    open spec fn spec_end_bound(&self) -> Bound<T> {
        Bound::Included(self.end)
    }

    fn start_bound(&self) -> (b: Bound<&T>) {
        Bound::Excluded(&self.start)
    }

    fn end_bound(&self) -> (b: Bound<&T>) {
        Bound::Included(&self.end)
    }
}

impl<T: PartialOrd> Contain<T> for StartInclusiveEndExclusive<T> {
    open spec fn spec_start_bound(&self) -> Bound<T> {
        Bound::Included(self.start)
    }

    open spec fn spec_end_bound(&self) -> Bound<T> {
        Bound::Excluded(self.end)
    }

    fn start_bound(&self) -> (b: Bound<&T>) {
        Bound::Included(&self.start)
    }

    fn end_bound(&self) -> (b: Bound<&T>) {
        Bound::Excluded(&self.end)
    }
}

impl<T: PartialOrd> Contain<T> for StartExclusiveEndExclusive<T> {
    open spec fn spec_start_bound(&self) -> Bound<T> {
        Bound::Excluded(self.start)
    }

    open spec fn spec_end_bound(&self) -> Bound<T> {
        Bound::Excluded(self.end)
    }

    fn start_bound(&self) -> (b: Bound<&T>) {
        Bound::Excluded(&self.start)
    }

    fn end_bound(&self) -> (b: Bound<&T>) {
        Bound::Excluded(&self.end)
    }
}

} // verus!
