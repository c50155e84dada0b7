//! Integer trigonometry in milliradians.
//!
//! A heading is the unit vector `(cos a, sin a)` of an orientation `a`.
//! Here both components are computed in fixed point with a rational
//! approximation of the sine on `[0, pi]` (exact at 0, pi/2 and pi),
//! extended by symmetry to a full turn.  The half turn is rounded to
//! `PI_MRAD` milliradians, so a full turn is `TAU_MRAD`.

use vstd::prelude::*;
use crate::fixed::lemma_div_bound;
use crate::fixed::ONE_FP;

verus! {

/// Half turn, in milliradians.
pub const PI_MRAD: i64 = 3142;

/// Full turn, in milliradians.
pub const TAU_MRAD: i64 = 2 * PI_MRAD;

/// Quarter turn, in milliradians.
pub const HALF_PI_MRAD: i64 = 1571;

/// Denominator offset of the sine approximation: `5 * PI_MRAD^2`.
pub const SIN_DEN: i64 = 5 * PI_MRAD * PI_MRAD;

/// Peak of `x * (PI_MRAD - x)`, reached at the quarter turn.
pub const SIN_PEAK: i64 = HALF_PI_MRAD * HALF_PI_MRAD;

/// Rational approximation of `ONE_FP * sin(x / 1000)` on `[0, PI_MRAD]`.
pub open spec fn spec_sin_half_turn(x: int) -> int {
    let t = x * (PI_MRAD - x);
    (16 * ONE_FP * t) / (SIN_DEN - 4 * t)
}

/// Fixed-point sine of a normalized angle in `[0, TAU_MRAD)`.
#[verifier::opaque]
pub open spec fn spec_sin_mrad(a: int) -> int {
    if a <= PI_MRAD {
        spec_sin_half_turn(a)
    } else {
        -spec_sin_half_turn(a - PI_MRAD)
    }
}

/// Fixed-point cosine of a normalized angle in `[0, TAU_MRAD)`.
#[verifier::opaque]
pub open spec fn spec_cos_mrad(a: int) -> int {
    let b = a + HALF_PI_MRAD;
    if b >= TAU_MRAD {
        spec_sin_mrad(b - TAU_MRAD)
    } else {
        spec_sin_mrad(b)
    }
}

/// Any angle reduced to the canonical turn `[0, TAU_MRAD)`.
#[verifier::opaque]
pub open spec fn spec_norm_mrad(a: int) -> int {
    if a >= 0 {
        a % (TAU_MRAD as int)
    } else {
        let m = (-a) % (TAU_MRAD as int);
        if m == 0 {
            0
        } else {
            TAU_MRAD - m
        }
    }
}

/// The product `x * (PI_MRAD - x)` stays within `[0, SIN_PEAK]` on the
/// half turn.
proof fn lemma_sin_arg_bounds(x: int)
    requires
        0 <= x <= PI_MRAD,
    ensures
        0 <= x * (PI_MRAD - x) <= SIN_PEAK,
{
    assert(0 <= x * (PI_MRAD - x) <= SIN_PEAK) by (nonlinear_arith)
        requires
            0 <= x <= 3142,
    ;
}

/// Sine approximation on the half turn; lands in `[0, ONE_FP]`.
fn sin_half_turn(x: i64) -> (r: i64)
    requires
        0 <= x <= PI_MRAD,
    ensures
        r == spec_sin_half_turn(x as int),
        0 <= r <= ONE_FP,
{
    proof {
        lemma_sin_arg_bounds(x as int);
    }
    let t: i64 = x * (PI_MRAD - x);
    let num: u64 = (16 * ONE_FP * t) as u64;
    let den: u64 = (SIN_DEN - 4 * t) as u64;
    proof {
        lemma_div_bound(num as int, den as int, ONE_FP as int);
    }
    (num / den) as i64
}

/// Fixed-point sine; `a` must be normalized.
pub fn sin_mrad(a: i64) -> (r: i64)
    requires
        0 <= a < TAU_MRAD,
    ensures
        r == spec_sin_mrad(a as int),
        -ONE_FP <= r <= ONE_FP,
{
    proof {
        reveal(spec_sin_mrad);
    }
    if a <= PI_MRAD {
        sin_half_turn(a)
    } else {
        -sin_half_turn(a - PI_MRAD)
    }
}

/// Fixed-point cosine; `a` must be normalized.
pub fn cos_mrad(a: i64) -> (r: i64)
    requires
        0 <= a < TAU_MRAD,
    ensures
        r == spec_cos_mrad(a as int),
        -ONE_FP <= r <= ONE_FP,
{
    proof {
        reveal(spec_cos_mrad);
    }
    let b = a + HALF_PI_MRAD;
    if b >= TAU_MRAD {
        sin_mrad(b - TAU_MRAD)
    } else {
        sin_mrad(b)
    }
}

/// Reduce any angle to the canonical turn `[0, TAU_MRAD)`.
pub fn norm_mrad(a: i64) -> (r: i64)
    ensures
        r == spec_norm_mrad(a as int),
        0 <= r < TAU_MRAD,
{
    proof {
        reveal(spec_norm_mrad);
    }
    let wide: i128 = a as i128;
    if wide >= 0 {
        (wide % (TAU_MRAD as i128)) as i64
    } else {
        let m = ((-wide) % (TAU_MRAD as i128)) as i64;
        if m == 0 {
            0
        } else {
            TAU_MRAD - m
        }
    }
}

} // verus!
