use chord_ring::arithmetic::is_in_range;

#[test]
fn ring_circular_wraparound() {
    // An interval that crosses zero: (250, 10] in a small ring contains 5 ...
    assert!(is_in_range(5, (250, false), (10, true)));
    // ... but not its excluded lower endpoint.
    assert!(!is_in_range(250, (250, false), (10, true)));
    // The inclusive upper endpoint belongs to it, points beyond do not.
    assert!(is_in_range(10, (250, false), (10, true)));
    assert!(!is_in_range(11, (250, false), (10, true)));
    // Points on the far side of the ring stay outside.
    assert!(!is_in_range(100, (250, false), (10, true)));
    // The same test at the top of the full identifier space.
    assert!(is_in_range(3, (u32::MAX - 5, false), (10, true)));
    assert!(is_in_range(u32::MAX, (u32::MAX - 5, false), (10, true)));
    assert!(!is_in_range(u32::MAX - 10, (u32::MAX - 5, false), (10, true)));
}

#[test]
fn plain_interval_flags() {
    assert!(is_in_range(15, (10, false), (20, false)));
    assert!(!is_in_range(10, (10, false), (20, true)));
    assert!(is_in_range(10, (10, true), (20, true)));
    assert!(is_in_range(20, (10, false), (20, true)));
    assert!(!is_in_range(20, (10, false), (20, false)));
    assert!(!is_in_range(25, (10, true), (20, true)));
    assert!(!is_in_range(5, (10, true), (20, true)));
}

#[test]
fn degenerate_interval_both_inclusive_is_the_single_point() {
    assert!(is_in_range(7, (7, true), (7, true)));
    assert!(!is_in_range(5, (7, true), (7, true)));
    assert!(!is_in_range(8, (7, true), (7, true)));
}

#[test]
fn degenerate_interval_both_exclusive_is_the_ring_minus_the_point() {
    assert!(!is_in_range(7, (7, false), (7, false)));
    assert!(is_in_range(5, (7, false), (7, false)));
    assert!(is_in_range(8, (7, false), (7, false)));
    assert!(is_in_range(0, (7, false), (7, false)));
    assert!(is_in_range(u32::MAX, (7, false), (7, false)));
}

#[test]
fn degenerate_interval_mixed_flags_cover_the_whole_ring() {
    // A full clockwise turn from the point back to itself: every key lies
    // on it, the point included by whichever flag is set.
    assert!(is_in_range(7, (7, false), (7, true)));
    assert!(is_in_range(5, (7, false), (7, true)));
    assert!(is_in_range(7, (7, true), (7, false)));
    assert!(is_in_range(5, (7, true), (7, false)));
}
