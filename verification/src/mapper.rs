//! The coordinate mapper: a pixel-grid index pair is interpolated linearly
//! onto a rectangular region of the complex plane.

use vstd::prelude::*;
use crate::fixed::{Fx, FX_COORD_MAX};
use crate::cplx::Cplx;

verus! {

/// A nonempty interval of the real line in fixed point. Grid indices are
/// interpolated across `[min, max)`: dividing by the grid size rather than
/// the grid size minus one, index 0 lands on `min` and no index reaches
/// `max`.
#[derive(Clone, Copy, PartialEq, Eq, Structural, Debug)]
pub struct Bounds {
    pub min: Fx,
    pub max: Fx,
}

impl Bounds {
    /// Well-formed bounds: increasing, and within the coordinate range the
    /// recurrence arithmetic is proved safe for.
    pub open spec fn wf(self) -> bool {
        &&& self.min@ < self.max@
        &&& -(FX_COORD_MAX as int) <= self.min@
        &&& self.max@ <= FX_COORD_MAX as int
    }
}

/// Linear interpolation in raw units: the lower bound plus `idx` grid steps
/// of width `(max - min) / g`, the division truncated (the numerator is
/// nonnegative for a well-formed interval).
pub open spec fn lerp_spec(min: int, max: int, idx: int, g: int) -> int
    recommends
        g > 0,
{
    min + (idx * (max - min)) / g
}

/// An index strictly below the grid size keeps the interpolation
/// numerator strictly below `g` widths, so the truncated quotient stays
/// below one width.
proof fn lemma_lerp_numerator_bounds(min: int, max: int, idx: int, g: int) by (nonlinear_arith)
    requires
        min < max,
        0 <= idx < g,
    ensures
        0 <= idx * (max - min) < g * (max - min),
{
}

/// Mapper base point: index 0 maps onto the lower bound, for every grid
/// size and every interval.
pub proof fn lemma_lerp_origin(min: int, max: int, g: int)
    requires
        g > 0,
    ensures
        lerp_spec(min, max, 0, g) == min,
{
    vstd::arithmetic::div_mod::lemma_div_of0(g);
}

/// Mapper linearity: where the interpolation step divides exactly, doubling
/// the interval width doubles the offset of every sample from the lower
/// bound. (With truncation the exact-division premise is needed: for a
/// width of 3 raw units, index 1 and grid size 2, the narrow offset
/// truncates to 1 while the doubled width gives 3.)
pub proof fn lemma_lerp_width_doubling(
    min1: int,
    max1: int,
    min2: int,
    max2: int,
    idx: int,
    g: int,
) by (nonlinear_arith)
    requires
        g > 0,
        max2 - min2 == 2 * (max1 - min1),
        (idx * (max1 - min1)) % g == 0,
    ensures
        lerp_spec(min2, max2, idx, g) - min2 == 2 * (lerp_spec(min1, max1, idx, g) - min1),
{
}

/// The interpolated coordinate for one grid index.
pub fn lerp(b: Bounds, idx: u32, g: u32) -> (r: Fx)
    requires
        b.wf(),
        idx < g,
    ensures
        r@ == lerp_spec(b.min@, b.max@, idx as int, g as int),
        b.min@ <= r@ < b.max@,
{
    let width: u64 = (b.max.bits - b.min.bits) as u64;
    proof {
        vstd::arithmetic::mul::lemma_mul_upper_bound(
            width as int,
            0x1000000000,
            idx as int,
            0x100000000,
        );
    }
    let prod: u128 = (width as u128) * (idx as u128);
    let off: u128 = prod / (g as u128);
    proof {
        vstd::arithmetic::mul::lemma_mul_is_commutative(width as int, idx as int);
        lemma_lerp_numerator_bounds(b.min@, b.max@, idx as int, g as int);
        vstd::arithmetic::div_mod::lemma_multiply_divide_lt(
            prod as int,
            g as int,
            b.max@ - b.min@,
        );
    }
    Fx { bits: b.min.bits + (off as i64) }
}

/// The point of the plane sampled for the grid coordinate `(row, col)`:
/// the row index is interpolated across the real interval, the column
/// index across the imaginary one.
pub fn map_grid_to_plane(bounds_x: Bounds, bounds_y: Bounds, row: u32, col: u32, g: u32) -> (z:
    Cplx)
    requires
        bounds_x.wf(),
        bounds_y.wf(),
        row < g,
        col < g,
    ensures
        z.re@ == lerp_spec(bounds_x.min@, bounds_x.max@, row as int, g as int),
        z.im@ == lerp_spec(bounds_y.min@, bounds_y.max@, col as int, g as int),
        bounds_x.min@ <= z.re@ < bounds_x.max@,
        bounds_y.min@ <= z.im@ < bounds_y.max@,
{
    Cplx { re: lerp(bounds_x, row, g), im: lerp(bounds_y, col, g) }
}

} // verus!
