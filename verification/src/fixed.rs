//! Fixed-point foundations: scale constants, machine limits, saturating
//! addition, truncating division, and a verified integer square root.
//!
//! One playfield unit is `ONE_FP` fixed-point steps (milliunits); one
//! radian is `ONE_FP` milliradians.  The limits below are far beyond any
//! playable field; they only keep every intermediate product of the
//! gravity law inside 128-bit arithmetic.

use vstd::prelude::*;

verus! {

/// Fixed-point scale: milliunits per playfield unit.
pub const ONE_FP: i64 = 1000;

/// Largest playfield width or height the core accepts, in milliunits.
pub const LIM_BOUND: i64 = 1_000_000_000_000;

/// Velocities and angular velocities saturate at this magnitude
/// (milliunits, or milliradians, per tick).
pub const LIM_VEL: i64 = 100_000_000_000;

/// Largest coordinate magnitude the distance and gravity math accepts.
pub const LIM_POS: i64 = 1_900_000_000_000;

/// Largest gravity strength the integrator accepts (playfield units).
pub const LIM_GRAVITY: i64 = 1_000_000;

/// `|a|` over mathematical integers.
pub open spec fn abs_i(a: int) -> int {
    if a >= 0 {
        a
    } else {
        -a
    }
}

/// `a + b` saturated into `[-lim, lim]`.
pub open spec fn spec_add_sat(a: int, b: int, lim: int) -> int {
    if a + b > lim {
        lim
    } else if a + b < -lim {
        -lim
    } else {
        a + b
    }
}

/// Saturating fixed-point addition; total on all of `i64`.
pub fn add_sat(a: i64, b: i64, lim: i64) -> (r: i64)
    requires
        0 <= lim,
    ensures
        r == spec_add_sat(a as int, b as int, lim as int),
        -lim <= r <= lim,
{
    let s: i128 = a as i128 + b as i128;
    if s > lim as i128 {
        lim
    } else if s < -(lim as i128) {
        -lim
    } else {
        s as i64
    }
}

/// Division rounding toward zero, for a positive divisor.
pub open spec fn div_trunc(a: int, d: int) -> int
    recommends
        d > 0,
{
    if a >= 0 {
        a / d
    } else {
        -((-a) / d)
    }
}

/// A nonnegative quotient stays below `c` once the dividend is at most
/// `c * d`.
pub proof fn lemma_div_bound(a: int, d: int, c: int)
    requires
        0 <= a,
        0 < d,
        0 <= c,
        a <= c * d,
    ensures
        0 <= a / d <= c,
{
    vstd::arithmetic::div_mod::lemma_div_is_ordered(a, c * d, d);
    vstd::arithmetic::div_mod::lemma_div_by_multiple(c, d);
    vstd::arithmetic::div_mod::lemma_div_is_ordered(0, a, d);
    vstd::arithmetic::div_mod::lemma_div_basics(d);
}

/// The greatest `r` with `r * r <= n`: the floor of the square root.
pub open spec fn sqrt_floor(n: nat) -> nat
    decreases n,
{
    if n == 0 {
        0
    } else {
        let p = sqrt_floor((n - 1) as nat);
        if (p + 1) * (p + 1) <= n {
            p + 1
        } else {
            p
        }
    }
}

/// `sqrt_floor(n)` is indeed the floor of the square root of `n`.
pub proof fn lemma_sqrt_floor_bounds(n: nat)
    ensures
        sqrt_floor(n) * sqrt_floor(n) <= n,
        n < (sqrt_floor(n) + 1) * (sqrt_floor(n) + 1),
    decreases n,
{
    if n == 0 {
        assert(sqrt_floor(0) == 0);
        assert(n < (sqrt_floor(n) + 1) * (sqrt_floor(n) + 1)) by (nonlinear_arith)
            requires
                n == 0,
                sqrt_floor(n) == 0,
        ;
    } else {
        let m = (n - 1) as nat;
        let p = sqrt_floor(m);
        lemma_sqrt_floor_bounds(m);
        if (p + 1) * (p + 1) <= n {
            assert(sqrt_floor(n) == p + 1);
            assert(n == (p + 1) * (p + 1));
            assert((p + 1) * (p + 1) < (p + 2) * (p + 2)) by (nonlinear_arith);
            assert(sqrt_floor(n) + 1 == p + 2);
            assert(n < (sqrt_floor(n) + 1) * (sqrt_floor(n) + 1));
        } else {
            assert(sqrt_floor(n) == p);
            assert(p * p <= m);
            assert(n < (sqrt_floor(n) + 1) * (sqrt_floor(n) + 1));
        }
    }
}

/// Any `r` with `r * r <= n < (r + 1) * (r + 1)` equals `sqrt_floor(n)`.
pub proof fn lemma_sqrt_floor_unique(n: nat, r: nat)
    requires
        r * r <= n,
        n < (r + 1) * (r + 1),
    ensures
        r == sqrt_floor(n),
{
    lemma_sqrt_floor_bounds(n);
    let s = sqrt_floor(n);
    if r < s {
        assert((r + 1) * (r + 1) <= s * s) by (nonlinear_arith)
            requires
                r + 1 <= s,
        ;
        assert(false);
    }
    if s < r {
        assert((s + 1) * (s + 1) <= r * r) by (nonlinear_arith)
            requires
                s + 1 <= r,
        ;
        assert(false);
    }
    assert(r == s);
}

/// Upper end of the binary-search range of `isqrt`.
pub const ISQRT_HI: u128 = 35_184_372_088_832;

/// Integer square root by binary search.
pub fn isqrt(n: u128) -> (r: u128)
    requires
        (n as nat) < (ISQRT_HI * ISQRT_HI) as nat,
    ensures
        r == sqrt_floor(n as nat),
        r < ISQRT_HI,
{
    let mut lo: u128 = 0;
    let mut hi: u128 = ISQRT_HI;
    while lo + 1 < hi
        invariant
            lo < hi <= ISQRT_HI,
            lo * lo <= n,
            (n as nat) < (hi * hi) as nat,
        decreases hi - lo,
    {
        let mid = lo + (hi - lo) / 2;
        assert(lo < mid < hi);
        assert(mid * mid < ISQRT_HI * ISQRT_HI) by (nonlinear_arith)
            requires
                0 <= mid < ISQRT_HI,
        ;
        if mid * mid <= n {
            lo = mid;
        } else {
            hi = mid;
        }
    }
    proof {
        lemma_sqrt_floor_unique(n as nat, lo as nat);
    }
    lo
}

} // verus!
