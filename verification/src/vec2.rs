//! Two-dimensional fixed-point vectors and the Euclidean distance.

use vstd::prelude::*;
use crate::fixed::abs_i;
use crate::fixed::isqrt;
use crate::fixed::lemma_sqrt_floor_bounds;
use crate::fixed::sqrt_floor;
use crate::fixed::ISQRT_HI;
use crate::fixed::LIM_POS;

verus! {

/// An `(x, y)` pair in milliunits; used for positions and velocities.
#[derive(Clone, Copy, PartialEq, Eq, Structural, Debug)]
pub struct Vec2 {
    pub x: i64,
    pub y: i64,
}

/// Largest value `dist_fp` can return under its input limits.
pub const DIST_MAX: i64 = 5_400_000_000_000;

/// Both components of `v` have magnitude at most `lim`.
pub open spec fn in_box(v: Vec2, lim: int) -> bool {
    abs_i(v.x as int) <= lim && abs_i(v.y as int) <= lim
}

/// Fixed-point Euclidean distance between `a` and `b`: the floor of the
/// square root of the summed squared component differences.
#[verifier::opaque]
pub open spec fn spec_dist(a: Vec2, b: Vec2) -> int {
    let dx = b.x - a.x;
    let dy = b.y - a.y;
    sqrt_floor((dx * dx + dy * dy) as nat) as int
}

/// The distance is nonnegative and dominates each component difference.
pub proof fn lemma_dist_dominates(a: Vec2, b: Vec2)
    ensures
        0 <= spec_dist(a, b),
        abs_i(b.x - a.x) <= spec_dist(a, b),
        abs_i(b.y - a.y) <= spec_dist(a, b),
{
    reveal(spec_dist);
    let dx = b.x - a.x;
    let dy = b.y - a.y;
    assert(dx * dx >= 0 && dy * dy >= 0) by (nonlinear_arith);
    let n = (dx * dx + dy * dy) as nat;
    lemma_sqrt_floor_bounds(n);
    let s = sqrt_floor(n) as int;
    assert(dx <= s && -dx <= s && dy <= s && -dy <= s) by (nonlinear_arith)
        requires
            dx * dx + dy * dy == n,
            dx * dx >= 0,
            dy * dy >= 0,
            n < (s + 1) * (s + 1),
            s >= 0,
    ;
}

/// Euclidean distance in fixed point.
pub fn dist_fp(a: Vec2, b: Vec2) -> (r: i64)
    requires
        in_box(a, LIM_POS as int),
        in_box(b, LIM_POS as int),
    ensures
        r == spec_dist(a, b),
        0 <= r <= DIST_MAX,
        abs_i(b.x - a.x) <= r,
        abs_i(b.y - a.y) <= r,
{
    proof {
        reveal(spec_dist);
    }
    let dx: i128 = b.x as i128 - a.x as i128;
    let dy: i128 = b.y as i128 - a.y as i128;
    assert(dx * dx + dy * dy <= 28_880_000_000_000_000_000_000_000 && dx * dx >= 0
        && dy * dy >= 0 && dx * dx + dy * dy < ISQRT_HI * ISQRT_HI) by (nonlinear_arith)
        requires
            -2 * (LIM_POS as int) <= dx <= 2 * (LIM_POS as int),
            -2 * (LIM_POS as int) <= dy <= 2 * (LIM_POS as int),
    ;
    let n: u128 = (dx * dx + dy * dy) as u128;
    let r = isqrt(n);
    proof {
        lemma_sqrt_floor_bounds(n as nat);
        assert(r <= DIST_MAX) by (nonlinear_arith)
            requires
                (r as int) * (r as int) <= n,
                (n as int) <= 28_880_000_000_000_000_000_000_000,
                r >= 0,
        ;
        lemma_dist_dominates(a, b);
    }
    r as i64
}

} // verus!
