//! Integer vectors and the clamping of a value to an interval.

use vstd::prelude::*;

verus! {

/// A point or a displacement in the plane.
#[derive(Clone, Copy, Debug, PartialEq, Eq, Structural)]
pub struct Vec2 {
    pub x: i64,
    pub y: i64,
}

impl Vec2 {
    /// The vector with the given components.
    pub fn new(x: i64, y: i64) -> (v: Vec2)
        ensures
            v == (Vec2 { x, y }),
    {
        Vec2 { x, y }
    }
}

/// The value of the interval `[lo, hi]` that is nearest to `v`.
pub open spec fn clamp_int(v: int, lo: int, hi: int) -> int {
    if v < lo {
        lo
    } else if v > hi {
        hi
    } else {
        v
    }
}

/// The absolute value of `v`.
pub open spec fn abs_int(v: int) -> int {
    if v < 0 {
        -v
    } else {
        v
    }
}

/// The smaller of `a` and `b`.
pub open spec fn min_int(a: int, b: int) -> int {
    if a <= b {
        a
    } else {
        b
    }
}

/// The length covered at a speed in a time, both of them `u64`, fits in a
/// `u128`.
pub(crate) proof fn lemma_reach_bound(speed: int, dt: int)
    requires
        0 <= speed <= u64::MAX,
        0 <= dt <= u64::MAX,
    ensures
        0 <= speed * dt <= u64::MAX * u64::MAX,
{
    assert(0 <= speed * dt <= u64::MAX * u64::MAX) by (nonlinear_arith)
        requires
            0 <= speed <= u64::MAX,
            0 <= dt <= u64::MAX,
    ;
}

/// Clamps `v` to the interval `[lo, hi]`.
pub fn clamp(v: i64, lo: i64, hi: i64) -> (r: i64)
    requires
        lo <= hi,
    ensures
        r == clamp_int(v as int, lo as int, hi as int),
{
    if v < lo {
        lo
    } else if v > hi {
        hi
    } else {
        v
    }
}

} // verus!
