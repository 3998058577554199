//! Escape-time evaluator and fixed-point arithmetic.

use julia::cplx::Cplx;
use julia::escape::escape_time;
use julia::fixed::{fx_mul, Fx, FX_SCALE};
use julia::render::intensity;

fn fx(bits: i64) -> Fx {
    Fx { bits }
}

fn point(re_bits: i64, im_bits: i64) -> Cplx {
    Cplx { re: fx(re_bits), im: fx(im_bits) }
}

const ONE: i64 = 4294967296;
const TWO: i64 = 8589934592;

#[test]
fn escape_time_is_bounded() {
    let c = point(-3435973837, 670014898);
    let samples: [(i64, i64); 4] = [(0, 0), (ONE, ONE), (-TWO, ONE), (ONE / 2, -ONE / 4)];
    for (zr, zi) in samples {
        let n = escape_time(point(zr, zi), c, 25, fx(TWO));
        assert!(n <= 25);
    }
}

#[test]
fn zero_orbit_reaches_the_cap() {
    // c = 0 and z0 = 0: the origin is a fixed point and never escapes.
    let n = escape_time(point(0, 0), point(0, 0), 80, fx(TWO));
    assert_eq!(n, 80);
}

#[test]
fn immediate_escape_returns_zero() {
    // |z0| = 2.5 >= radius 2 before any step.
    let n = escape_time(point(10737418240, 0), point(-ONE / 2, 0), 80, fx(TWO));
    assert_eq!(n, 0);

    // Exactly on the radius counts as escaped.
    let n = escape_time(point(TWO, 0), point(0, 0), 80, fx(TWO));
    assert_eq!(n, 0);
}

#[test]
fn one_step_orbit() {
    // z0 = 1.5: one step gives 1.5² + 0 = 2.25, past the radius.
    let n = escape_time(point(3 * ONE / 2, 0), point(0, 0), 80, fx(TWO));
    assert_eq!(n, 1);
}

#[test]
fn fx_mul_is_exact_on_halves() {
    assert_eq!(fx_mul(ONE / 2, ONE / 2), ONE / 4);
    assert_eq!(fx_mul(3 * ONE, 2 * ONE), 6 * ONE);
    assert_eq!(fx_mul(-3 * ONE / 2, ONE), -3 * ONE / 2);
    assert_eq!(fx_mul(0, 123456789), 0);
}

#[test]
fn fx_mul_truncates_toward_zero() {
    // (1/2^32)·(1/2) is 1/2^33: below one raw unit, truncated to zero,
    // for either sign.
    assert_eq!(fx_mul(1, ONE / 2), 0);
    assert_eq!(fx_mul(-1, ONE / 2), 0);
    // 3·(2^-32)·0.75 = 2.25 raw units: truncates to 2, and to -2 negated.
    assert_eq!(fx_mul(3, 3 * ONE / 4), 2);
    assert_eq!(fx_mul(-3, 3 * ONE / 4), -2);
}

#[test]
fn fx_from_int_scales() {
    assert_eq!(Fx::from_int(3).bits, 3 * FX_SCALE);
    assert_eq!(Fx::from_int(-2).bits, -2 * FX_SCALE);
}

#[test]
fn intensity_scales_and_truncates() {
    let one_and_half = fx(3 * ONE / 2);
    // 3 · 1.5 = 4.5, truncated toward zero.
    assert_eq!(intensity(3, one_and_half), 4);
    assert_eq!(intensity(0, one_and_half), 0);
    assert_eq!(intensity(10, fx(ONE)), 10);
}

#[test]
fn intensity_saturates_at_255() {
    let one_and_half = fx(3 * ONE / 2);
    // 170 · 1.5 = 255 exactly: the last value below the clamp.
    assert_eq!(intensity(170, one_and_half), 255);
    // 171 · 1.5 = 256.5: clamped, not wrapped to 0.
    assert_eq!(intensity(171, one_and_half), 255);
    assert_eq!(intensity(200, one_and_half), 255);
    assert_eq!(intensity(u32::MAX, fx(i64::MAX)), 255);
}
