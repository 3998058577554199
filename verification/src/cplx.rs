//! Points of the complex plane in fixed point, and one step of the
//! quadratic recurrence `z ← z² + c`.

use vstd::prelude::*;
use crate::fixed::{Fx, fx_mul, fx_mul_spec, fx_mul_fits, FX_COORD_MAX};

verus! {

/// A point of the complex plane, both coordinates in fixed point.
#[derive(Clone, Copy, PartialEq, Eq, Structural, Debug)]
pub struct Cplx {
    pub re: Fx,
    pub im: Fx,
}

/// The squared Euclidean norm of a point, in raw units scaled by 2^64.
/// It is exact: no rounding happens before the escape comparison.
pub open spec fn norm_sqr_spec(zr: int, zi: int) -> int {
    zr * zr + zi * zi
}

/// The real part of one recurrence step, in raw units:
/// `re(z² + c) = re(z)² − im(z)² + re(c)`, each square truncated toward zero.
pub open spec fn step_re_spec(zr: int, zi: int, cr: int) -> int {
    fx_mul_spec(zr, zr) - fx_mul_spec(zi, zi) + cr
}

/// The imaginary part of one recurrence step, in raw units:
/// `im(z² + c) = 2·re(z)·im(z) + im(c)`, the product truncated toward zero
/// before the doubling, which is exact.
pub open spec fn step_im_spec(zr: int, zi: int, ci: int) -> int {
    2 * fx_mul_spec(zr, zi) + ci
}

/// A square is nonnegative.
pub proof fn lemma_square_nonneg(x: int) by (nonlinear_arith)
    ensures
        x * x >= 0,
{
}

/// A value whose square is below `r²` lies strictly between `-r` and `r`.
pub proof fn lemma_square_bound(x: int, r: int) by (nonlinear_arith)
    requires
        r > 0,
        x * x < r * r,
    ensures
        -r < x < r,
{
}

/// The product of two values bounded in magnitude by `m` is bounded by `m²`.
proof fn lemma_mul_magnitude_bound(a: int, b: int, m: int) by (nonlinear_arith)
    requires
        0 <= m,
        -m <= a <= m,
        -m <= b <= m,
    ensures
        -(m * m) <= a * b <= m * m,
{
}

/// The rescaled product of two values bounded in magnitude by
/// `FX_COORD_MAX` fits `i64` and is bounded by 2^38 in magnitude.
pub proof fn lemma_fx_mul_coord_bound(a: int, b: int)
    requires
        -(FX_COORD_MAX as int) <= a <= FX_COORD_MAX as int,
        -(FX_COORD_MAX as int) <= b <= FX_COORD_MAX as int,
    ensures
        fx_mul_fits(a, b),
        -0x4000000000 <= fx_mul_spec(a, b) <= 0x4000000000,
{
    lemma_mul_magnitude_bound(a, b, FX_COORD_MAX as int);
}

/// The exact squared norm of a point, as a 128-bit value scaled by 2^64.
pub fn norm_sqr(zr: i64, zi: i64) -> (r: u128)
    ensures
        r as int == norm_sqr_spec(zr as int, zi as int),
{
    proof {
        lemma_square_nonneg(zr as int);
        lemma_square_nonneg(zi as int);
        lemma_mul_magnitude_bound(zr as int, zr as int, 0x8000000000000000);
        lemma_mul_magnitude_bound(zi as int, zi as int, 0x8000000000000000);
    }
    let a: i128 = (zr as i128) * (zr as i128);
    let b: i128 = (zi as i128) * (zi as i128);
    (a as u128) + (b as u128)
}

/// One recurrence step on raw coordinates. The bound on the current point
/// comes from the escape test: the evaluator only steps while the norm is
/// below the radius, which itself is capped by `FX_COORD_MAX`.
pub fn step(zr: i64, zi: i64, cr: i64, ci: i64) -> (r: (i64, i64))
    requires
        -(FX_COORD_MAX as int) <= zr as int <= FX_COORD_MAX as int,
        -(FX_COORD_MAX as int) <= zi as int <= FX_COORD_MAX as int,
        -(FX_COORD_MAX as int) <= cr as int <= FX_COORD_MAX as int,
        -(FX_COORD_MAX as int) <= ci as int <= FX_COORD_MAX as int,
    ensures
        r.0 as int == step_re_spec(zr as int, zi as int, cr as int),
        r.1 as int == step_im_spec(zr as int, zi as int, ci as int),
        -0x10000000000 <= r.0 as int <= 0x10000000000,
        -0x10000000000 <= r.1 as int <= 0x10000000000,
{
    proof {
        lemma_fx_mul_coord_bound(zr as int, zr as int);
        lemma_fx_mul_coord_bound(zi as int, zi as int);
        lemma_fx_mul_coord_bound(zr as int, zi as int);
    }
    let rr: i64 = fx_mul(zr, zr);
    let ii: i64 = fx_mul(zi, zi);
    let ri: i64 = fx_mul(zr, zi);
    (rr - ii + cr, ri + ri + ci)
}

} // verus!
