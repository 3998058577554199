//! Signed fixed-point numbers with 32 fractional bits.
//!
//! A raw value `bits: i64` stands for the real number `bits / 2^32`. All
//! kernel arithmetic is exact integer arithmetic on these raw values, so
//! every rounding decision is stated in a spec function and proved.

use vstd::prelude::*;

verus! {

/// The denominator of the representation: one unit of the real line is
/// `FX_SCALE` raw units.
pub const FX_SCALE: i64 = 4294967296;

/// Largest magnitude, in raw units, that a plane coordinate, a Julia
/// parameter component or the escape radius may have. It stands for the
/// real number 8, which is comfortably beyond the escape radii in use and
/// keeps every product of the recurrence inside `i64`.
pub const FX_COORD_MAX: i64 = 34359738368;

/// A fixed-point number: `bits` raw units of size 2^-32.
#[derive(Clone, Copy, PartialEq, Eq, Structural, Debug)]
pub struct Fx {
    pub bits: i64,
}

impl View for Fx {
    type V = int;

    open spec fn view(&self) -> int {
        self.bits as int
    }
}

impl Fx {
    /// The fixed-point value of a small integer.
    pub fn from_int(v: i32) -> (r: Fx)
        ensures
            r@ == v * (FX_SCALE as int),
    {
        proof {
            lemma_i64_product_bounds(v as int, FX_SCALE as int);
        }
        Fx { bits: (v as i64) * FX_SCALE }
    }
}

/// The product of two raw fixed-point values, rescaled to raw units with
/// truncation toward zero. This is the rounding rule of the whole kernel.
pub open spec fn fx_mul_spec(a: int, b: int) -> int {
    if a * b >= 0 {
        (a * b) / (FX_SCALE as int)
    } else {
        -((-(a * b)) / (FX_SCALE as int))
    }
}

/// Whether the rescaled product of two raw values fits back into `i64`.
pub open spec fn fx_mul_fits(a: int, b: int) -> bool {
    i64::MIN <= fx_mul_spec(a, b) <= i64::MAX
}

/// The product of two `i64` values fits in `i128`.
proof fn lemma_i64_product_bounds(a: int, b: int) by (nonlinear_arith)
    requires
        i64::MIN <= a <= i64::MAX,
        i64::MIN <= b <= i64::MAX,
    ensures
        -0x40000000000000000000000000000000 <= a * b <= 0x40000000000000000000000000000000,
{
}

/// Fixed-point multiplication: the full 128-bit product, rescaled with
/// truncation toward zero.
pub fn fx_mul(a: i64, b: i64) -> (r: i64)
    requires
        fx_mul_fits(a as int, b as int),
    ensures
        r as int == fx_mul_spec(a as int, b as int),
{
    proof {
        lemma_i64_product_bounds(a as int, b as int);
    }
    let p: i128 = (a as i128) * (b as i128);
    if p >= 0 {
        let q: u128 = (p as u128) / (FX_SCALE as u128);
        (q as i128) as i64
    } else {
        let m: u128 = (-p) as u128;
        let q: u128 = m / (FX_SCALE as u128);
        (-(q as i128)) as i64
    }
}

} // verus!
