//! The shape-transition table of the cut algebra, one case per starting
//! shape and operation, with a tighter and a looser incoming edge wherever
//! an existing edge competes with the cut edge.

use interval_cut::{
    AboveExclusive, AboveInclusive, BelowExclusive, BelowInclusive, Contain, EndExclusive,
    EndInclusive, Full, StartExclusive, StartExclusiveEndExclusive, StartExclusiveEndInclusive,
    StartInclusive, StartInclusiveEndExclusive, StartInclusiveEndInclusive,
};

#[test]
fn cut_full() {
    let a: EndInclusive<u64> = Full.below_inclusive(5);
    assert_eq!(a.end, 5);
    let b: EndExclusive<u64> = Full.below_exclusive(5);
    assert_eq!(b.end, 5);
    let c: StartInclusive<u64> = Full.above_inclusive(5);
    assert_eq!(c.start, 5);
    let d: StartExclusive<u64> = Full.above_exclusive(5);
    assert_eq!(d.start, 5);
}

#[test]
fn cut_end_exclusive() {
    let tight: EndInclusive<u64> = EndExclusive { end: 10 }.below_inclusive(7);
    assert_eq!(tight.end, 7);
    let loose: EndInclusive<u64> = EndExclusive { end: 10 }.below_inclusive(13);
    assert_eq!(loose.end, 10);

    let tight: EndExclusive<u64> = EndExclusive { end: 10 }.below_exclusive(7);
    assert_eq!(tight.end, 7);
    let loose: EndExclusive<u64> = EndExclusive { end: 10 }.below_exclusive(13);
    assert_eq!(loose.end, 10);

    let r: StartInclusiveEndExclusive<u64> = EndExclusive { end: 10 }.above_inclusive(7);
    assert_eq!((r.start, r.end), (7, 10));
    let r: StartExclusiveEndExclusive<u64> = EndExclusive { end: 10 }.above_exclusive(7);
    assert_eq!((r.start, r.end), (7, 10));
}

#[test]
fn cut_end_inclusive() {
    let tight: EndInclusive<u64> = EndInclusive { end: 10 }.below_inclusive(7);
    assert_eq!(tight.end, 7);
    let loose: EndInclusive<u64> = EndInclusive { end: 10 }.below_inclusive(13);
    assert_eq!(loose.end, 10);

    let tight: EndExclusive<u64> = EndInclusive { end: 10 }.below_exclusive(7);
    assert_eq!(tight.end, 7);
    let loose: EndExclusive<u64> = EndInclusive { end: 10 }.below_exclusive(13);
    assert_eq!(loose.end, 10);

    let r: StartInclusiveEndInclusive<u64> = EndInclusive { end: 10 }.above_inclusive(7);
    assert_eq!((r.start, r.end), (7, 10));
    let r: StartExclusiveEndInclusive<u64> = EndInclusive { end: 10 }.above_exclusive(7);
    assert_eq!((r.start, r.end), (7, 10));
}

#[test]
fn cut_start_exclusive() {
    let r: StartExclusiveEndInclusive<u64> = StartExclusive { start: 10 }.below_inclusive(13);
    assert_eq!((r.start, r.end), (10, 13));
    let r: StartExclusiveEndExclusive<u64> = StartExclusive { start: 10 }.below_exclusive(13);
    assert_eq!((r.start, r.end), (10, 13));

    let tight: StartInclusive<u64> = StartExclusive { start: 10 }.above_inclusive(13);
    assert_eq!(tight.start, 13);
    let loose: StartInclusive<u64> = StartExclusive { start: 10 }.above_inclusive(7);
    assert_eq!(loose.start, 10);

    let tight: StartExclusive<u64> = StartExclusive { start: 10 }.above_exclusive(13);
    assert_eq!(tight.start, 13);
    let loose: StartExclusive<u64> = StartExclusive { start: 10 }.above_exclusive(7);
    assert_eq!(loose.start, 10);
}

#[test]
fn cut_start_inclusive() {
    let r: StartInclusiveEndInclusive<u64> = StartInclusive { start: 10 }.below_inclusive(13);
    assert_eq!((r.start, r.end), (10, 13));
    let r: StartInclusiveEndExclusive<u64> = StartInclusive { start: 10 }.below_exclusive(13);
    assert_eq!((r.start, r.end), (10, 13));

    let tight: StartInclusive<u64> = StartInclusive { start: 10 }.above_inclusive(13);
    assert_eq!(tight.start, 13);
    let loose: StartInclusive<u64> = StartInclusive { start: 10 }.above_inclusive(7);
    assert_eq!(loose.start, 10);

    let tight: StartExclusive<u64> = StartInclusive { start: 10 }.above_exclusive(13);
    assert_eq!(tight.start, 13);
    let loose: StartExclusive<u64> = StartInclusive { start: 10 }.above_exclusive(7);
    assert_eq!(loose.start, 10);
}

#[test]
fn cut_start_inclusive_end_inclusive() {
    let tight: StartInclusiveEndInclusive<u64> =
        StartInclusiveEndInclusive { start: 10, end: 20 }.below_inclusive(15);
    assert_eq!((tight.start, tight.end), (10, 15));
    let loose: StartInclusiveEndInclusive<u64> =
        StartInclusiveEndInclusive { start: 10, end: 20 }.below_inclusive(25);
    assert_eq!((loose.start, loose.end), (10, 20));

    let tight: StartInclusiveEndExclusive<u64> =
        StartInclusiveEndInclusive { start: 10, end: 20 }.below_exclusive(15);
    assert_eq!((tight.start, tight.end), (10, 15));
    let loose: StartInclusiveEndExclusive<u64> =
        StartInclusiveEndInclusive { start: 10, end: 20 }.below_exclusive(25);
    assert_eq!((loose.start, loose.end), (10, 20));

    let tight: StartInclusiveEndInclusive<u64> =
        StartInclusiveEndInclusive { start: 10, end: 20 }.above_inclusive(15);
    assert_eq!((tight.start, tight.end), (15, 20));
    let loose: StartInclusiveEndInclusive<u64> =
        StartInclusiveEndInclusive { start: 10, end: 20 }.above_inclusive(5);
    assert_eq!((loose.start, loose.end), (10, 20));

    let tight: StartExclusiveEndInclusive<u64> =
        StartInclusiveEndInclusive { start: 10, end: 20 }.above_exclusive(15);
    assert_eq!((tight.start, tight.end), (15, 20));
    let loose: StartExclusiveEndInclusive<u64> =
        StartInclusiveEndInclusive { start: 10, end: 20 }.above_exclusive(5);
    assert_eq!((loose.start, loose.end), (10, 20));
}

#[test]
fn cut_start_exclusive_end_inclusive() {
    let tight: StartExclusiveEndInclusive<u64> =
        StartExclusiveEndInclusive { start: 10, end: 20 }.below_inclusive(15);
    assert_eq!((tight.start, tight.end), (10, 15));
    let loose: StartExclusiveEndInclusive<u64> =
        StartExclusiveEndInclusive { start: 10, end: 20 }.below_inclusive(25);
    assert_eq!((loose.start, loose.end), (10, 20));

    let tight: StartExclusiveEndExclusive<u64> =
        StartExclusiveEndInclusive { start: 10, end: 20 }.below_exclusive(15);
    assert_eq!((tight.start, tight.end), (10, 15));
    let loose: StartExclusiveEndExclusive<u64> =
        StartExclusiveEndInclusive { start: 10, end: 20 }.below_exclusive(25);
    assert_eq!((loose.start, loose.end), (10, 20));

    let tight: StartInclusiveEndInclusive<u64> =
        StartExclusiveEndInclusive { start: 10, end: 20 }.above_inclusive(15);
    assert_eq!((tight.start, tight.end), (15, 20));
    let loose: StartInclusiveEndInclusive<u64> =
        StartExclusiveEndInclusive { start: 10, end: 20 }.above_inclusive(5);
    assert_eq!((loose.start, loose.end), (10, 20));

    let tight: StartExclusiveEndInclusive<u64> =
        StartExclusiveEndInclusive { start: 10, end: 20 }.above_exclusive(15);
    assert_eq!((tight.start, tight.end), (15, 20));
    let loose: StartExclusiveEndInclusive<u64> =
        StartExclusiveEndInclusive { start: 10, end: 20 }.above_exclusive(5);
    assert_eq!((loose.start, loose.end), (10, 20));
}

#[test]
fn cut_start_inclusive_end_exclusive() {
    let tight: StartInclusiveEndInclusive<u64> =
        StartInclusiveEndExclusive { start: 10, end: 20 }.below_inclusive(15);
    assert_eq!((tight.start, tight.end), (10, 15));
    let loose: StartInclusiveEndInclusive<u64> =
        StartInclusiveEndExclusive { start: 10, end: 20 }.below_inclusive(25);
    assert_eq!((loose.start, loose.end), (10, 20));

    let tight: StartInclusiveEndExclusive<u64> =
        StartInclusiveEndExclusive { start: 10, end: 20 }.below_exclusive(15);
    assert_eq!((tight.start, tight.end), (10, 15));
    let loose: StartInclusiveEndExclusive<u64> =
        StartInclusiveEndExclusive { start: 10, end: 20 }.below_exclusive(25);
    assert_eq!((loose.start, loose.end), (10, 20));

    let tight: StartInclusiveEndExclusive<u64> =
        StartInclusiveEndExclusive { start: 10, end: 20 }.above_inclusive(15);
    assert_eq!((tight.start, tight.end), (15, 20));
    let loose: StartInclusiveEndExclusive<u64> =
        StartInclusiveEndExclusive { start: 10, end: 20 }.above_inclusive(5);
    assert_eq!((loose.start, loose.end), (10, 20));

    let tight: StartExclusiveEndExclusive<u64> =
        StartInclusiveEndExclusive { start: 10, end: 20 }.above_exclusive(15);
    assert_eq!((tight.start, tight.end), (15, 20));
    let loose: StartExclusiveEndExclusive<u64> =
        StartInclusiveEndExclusive { start: 10, end: 20 }.above_exclusive(5);
    assert_eq!((loose.start, loose.end), (10, 20));
}

#[test]
fn cut_start_exclusive_end_exclusive() {
    let tight: StartExclusiveEndInclusive<u64> =
        StartExclusiveEndExclusive { start: 10, end: 20 }.below_inclusive(15);
    assert_eq!((tight.start, tight.end), (10, 15));
    let loose: StartExclusiveEndInclusive<u64> =
        StartExclusiveEndExclusive { start: 10, end: 20 }.below_inclusive(25);
    assert_eq!((loose.start, loose.end), (10, 20));

    let tight: StartExclusiveEndExclusive<u64> =
        StartExclusiveEndExclusive { start: 10, end: 20 }.below_exclusive(15);
    assert_eq!((tight.start, tight.end), (10, 15));
    let loose: StartExclusiveEndExclusive<u64> =
        StartExclusiveEndExclusive { start: 10, end: 20 }.below_exclusive(25);
    assert_eq!((loose.start, loose.end), (10, 20));

    let tight: StartInclusiveEndExclusive<u64> =
        StartExclusiveEndExclusive { start: 10, end: 20 }.above_inclusive(15);
    assert_eq!((tight.start, tight.end), (15, 20));
    let loose: StartInclusiveEndExclusive<u64> =
        StartExclusiveEndExclusive { start: 10, end: 20 }.above_inclusive(5);
    assert_eq!((loose.start, loose.end), (10, 20));

    let tight: StartExclusiveEndExclusive<u64> =
        StartExclusiveEndExclusive { start: 10, end: 20 }.above_exclusive(15);
    assert_eq!((tight.start, tight.end), (15, 20));
    let loose: StartExclusiveEndExclusive<u64> =
        StartExclusiveEndExclusive { start: 10, end: 20 }.above_exclusive(5);
    assert_eq!((loose.start, loose.end), (10, 20));
}

#[test]
fn full_round_trip_at_one_edge_keeps_the_point() {
    let below: EndInclusive<u64> = Full.below_inclusive(5);
    let point: StartInclusiveEndInclusive<u64> = below.above_inclusive(5);
    assert_eq!((point.start, point.end), (5, 5));
    assert!(!point.is_null());
    assert!(point.contains(&5));
    assert!(!point.contains(&4));
    assert!(!point.contains(&6));
}

#[test]
fn cut_at_the_existing_closed_edge_survives() {
    let r: StartInclusiveEndInclusive<u64> = EndInclusive { end: 5 }.above_inclusive(5);
    assert_eq!((r.start, r.end), (5, 5));
    assert!(!r.is_null());
}
