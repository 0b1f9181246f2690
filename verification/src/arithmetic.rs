//! Ring-interval arithmetic over the circular identifier space.
//!
//! Every topology decision the protocol makes — "does this node own this
//! key", "has a closer successor appeared between us" — reduces to one
//! containment test on a clockwise interval of the ring, so this module is
//! the single source of truth for that test.

use vstd::prelude::*;

verus! {

/// Size of the identifier space, `2^ID_BITS`, as a mathematical integer.
pub open spec fn id_space() -> int {
    0x1_0000_0000
}

/// Clockwise distance from `a` to `b`: how far one walks clockwise from
/// `a` before reaching `b`; zero when they coincide.
pub open spec fn clockwise_dist(a: int, b: int) -> int {
    if b >= a {
        b - a
    } else {
        b - a + id_space()
    }
}

/// Clockwise gap from `a` to `b`: like [`clockwise_dist`], except that the
/// gap from a point to itself is a full turn of the ring. This is the
/// distance at which a walk that must take at least one step reaches `b`.
pub open spec fn clockwise_gap(a: int, b: int) -> int {
    if b > a {
        b - a
    } else {
        b - a + id_space()
    }
}

/// Membership of `key` in the ring-circular interval that starts at
/// `lower` and runs clockwise to `upper`, each endpoint belonging to the
/// interval exactly when its flag is set.
///
/// `lower > upper` numerically means the interval crosses zero. The
/// degenerate interval `lower == upper` is defined as: both endpoints
/// inclusive, the single point `lower`; both exclusive, the whole ring
/// except `lower`; one of the two inclusive, the whole ring (a full
/// clockwise turn from `lower` back to itself, the endpoint kept by
/// whichever flag is set).
pub open spec fn in_range_spec(
    key: int,
    lower: int,
    lower_inclusive: bool,
    upper: int,
    upper_inclusive: bool,
) -> bool {
    if lower < upper {
        (lower < key || (lower_inclusive && key == lower)) && (key < upper || (upper_inclusive
            && key == upper))
    } else if lower > upper {
        (lower < key || (lower_inclusive && key == lower)) || (key < upper || (upper_inclusive
            && key == upper))
    } else {
        if lower_inclusive && upper_inclusive {
            key == lower
        } else if !lower_inclusive && !upper_inclusive {
            key != lower
        } else {
            true
        }
    }
}

/// Decides whether `key` lies in the ring-circular interval from `lower`
/// clockwise to `upper`, honoring the inclusivity flag paired with each
/// endpoint.
pub fn is_in_range(key: u32, lower: (u32, bool), upper: (u32, bool)) -> (r: bool)
    ensures
        r == in_range_spec(key as int, lower.0 as int, lower.1, upper.0 as int, upper.1),
{
    let (lo, lo_inclusive) = lower;
    let (up, up_inclusive) = upper;
    if lo < up {
        (lo < key || (lo_inclusive && key == lo)) && (key < up || (up_inclusive && key == up))
    } else if lo > up {
        (lo < key || (lo_inclusive && key == lo)) || (key < up || (up_inclusive && key == up))
    } else {
        if lo_inclusive && up_inclusive {
            key == lo
        } else if !lo_inclusive && !up_inclusive {
            key != lo
        } else {
            true
        }
    }
}

/// The interval test is genuinely circular: for distinct endpoints,
/// membership is decided by comparing clockwise gaps from `lower` — a key
/// other than the endpoints is inside exactly when it is strictly nearer,
/// walking clockwise from `lower`, than `upper` is; the endpoints
/// themselves belong exactly when their flags say so. Wraparound through
/// zero is just one instance of this statement.
pub proof fn lemma_in_range_circular(
    key: int,
    lower: int,
    lower_inclusive: bool,
    upper: int,
    upper_inclusive: bool,
)
    requires
        0 <= key < id_space(),
        0 <= lower < id_space(),
        0 <= upper < id_space(),
        lower != upper,
    ensures
        in_range_spec(key, lower, lower_inclusive, upper, upper_inclusive) <==> ((key == lower
            && lower_inclusive) || (key == upper && upper_inclusive) || (key != lower && key
            != upper && clockwise_gap(lower, key) < clockwise_gap(lower, upper))),
{
}

/// The degenerate interval, both endpoints the same point: both flags
/// inclusive keeps only the point itself, both exclusive keeps everything
/// but the point, and a single inclusive flag makes a full turn of the
/// ring that every key belongs to.
pub proof fn lemma_degenerate_interval(
    key: int,
    point: int,
    lower_inclusive: bool,
    upper_inclusive: bool,
)
    ensures
        (lower_inclusive && upper_inclusive) ==> (in_range_spec(
            key,
            point,
            lower_inclusive,
            point,
            upper_inclusive,
        ) <==> key == point),
        (!lower_inclusive && !upper_inclusive) ==> (in_range_spec(
            key,
            point,
            lower_inclusive,
            point,
            upper_inclusive,
        ) <==> key != point),
        (lower_inclusive != upper_inclusive) ==> in_range_spec(
            key,
            point,
            lower_inclusive,
            point,
            upper_inclusive,
        ),
{
}

/// The interval flavor the lookup walk terminates on, lower exclusive and
/// upper inclusive, said with clockwise gaps: `key` lies in
/// `(lower, upper]` exactly when, walking clockwise from `lower`, `key`
/// is reached no later than `upper`. This holds for `lower == upper` too,
/// whose gap is a full turn.
pub proof fn lemma_in_range_gap(key: int, lower: int, upper: int)
    requires
        0 <= key < id_space(),
        0 <= lower < id_space(),
        0 <= upper < id_space(),
    ensures
        in_range_spec(key, lower, false, upper, true) <==> clockwise_gap(lower, key)
            <= clockwise_gap(lower, upper),
{
}

} // verus!
