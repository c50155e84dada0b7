//! The milliradian trigonometry and angle normalization.

use spacewar::trig::cos_mrad;
use spacewar::trig::norm_mrad;
use spacewar::trig::sin_mrad;
use spacewar::trig::HALF_PI_MRAD;
use spacewar::trig::PI_MRAD;
use spacewar::trig::TAU_MRAD;

#[test]
fn sine_exact_points() {
    assert_eq!(sin_mrad(0), 0);
    assert_eq!(sin_mrad(HALF_PI_MRAD), 1000);
    assert_eq!(sin_mrad(PI_MRAD), 0);
    assert_eq!(sin_mrad(PI_MRAD + HALF_PI_MRAD), -1000);
}

#[test]
fn cosine_exact_points() {
    assert_eq!(cos_mrad(0), 1000);
    assert_eq!(cos_mrad(HALF_PI_MRAD), 0);
    assert_eq!(cos_mrad(PI_MRAD), -1000);
    assert_eq!(cos_mrad(PI_MRAD + HALF_PI_MRAD), 0);
}

#[test]
fn sine_quarter_turn_approximation() {
    // sin(pi/4) is about 0.7071; the rational approximation lands at
    // 0.705.
    assert_eq!(sin_mrad(785), 705);
}

#[test]
fn normalization_wraps_both_ways() {
    assert_eq!(norm_mrad(0), 0);
    assert_eq!(norm_mrad(TAU_MRAD), 0);
    assert_eq!(norm_mrad(TAU_MRAD + 5), 5);
    assert_eq!(norm_mrad(-1), TAU_MRAD - 1);
    assert_eq!(norm_mrad(-TAU_MRAD), 0);
    assert_eq!(norm_mrad(7000), 7000 - TAU_MRAD);
}
