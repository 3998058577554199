//! The escape-time evaluator: how many recurrence steps `z ← z² + c` a
//! point survives before its norm reaches the escape radius, capped by a
//! maximum iteration count.

use vstd::prelude::*;
use crate::fixed::{Fx, FX_COORD_MAX};
use crate::cplx::{
    Cplx, norm_sqr, norm_sqr_spec, step, step_re_spec, step_im_spec, lemma_square_bound,
    lemma_square_nonneg, lemma_fx_mul_coord_bound,
};

verus! {

/// The escape time of the raw point `(zr, zi)` under the parameter
/// `(cr, ci)` with at most `fuel` steps: 0 if the squared norm already
/// reaches `rsq`, otherwise one more than the escape time of the stepped
/// point. `rsq` is the squared radius, in raw units scaled by 2^64.
pub open spec fn escape_time_spec(zr: int, zi: int, cr: int, ci: int, fuel: nat, rsq: int) -> nat
    decreases fuel,
{
    if norm_sqr_spec(zr, zi) >= rsq {
        0
    } else if fuel == 0 {
        0
    } else {
        1 + escape_time_spec(
            step_re_spec(zr, zi, cr),
            step_im_spec(zr, zi, ci),
            cr,
            ci,
            (fuel - 1) as nat,
            rsq,
        )
    }
}

/// Boundedness: for every point, parameter and radius, the escape time is
/// at most the iteration cap.
pub proof fn lemma_escape_time_bounded(zr: int, zi: int, cr: int, ci: int, fuel: nat, rsq: int)
    ensures
        escape_time_spec(zr, zi, cr, ci, fuel, rsq) <= fuel,
    decreases fuel,
{
    if norm_sqr_spec(zr, zi) < rsq && fuel > 0 {
        lemma_escape_time_bounded(
            step_re_spec(zr, zi, cr),
            step_im_spec(zr, zi, ci),
            cr,
            ci,
            (fuel - 1) as nat,
            rsq,
        );
    }
}

/// Immediate escape: a point whose squared norm already reaches the
/// squared radius has escape time 0.
pub proof fn lemma_immediate_escape(zr: int, zi: int, cr: int, ci: int, fuel: nat, rsq: int)
    requires
        norm_sqr_spec(zr, zi) >= rsq,
    ensures
        escape_time_spec(zr, zi, cr, ci, fuel, rsq) == 0,
{
}

/// The cap is reached: with parameter 0 the origin is a fixed point of the
/// recurrence, so for any positive squared radius the escape time is
/// exactly the iteration cap.
pub proof fn lemma_zero_orbit_runs_to_cap(fuel: nat, rsq: int)
    requires
        rsq > 0,
    ensures
        escape_time_spec(0, 0, 0, 0, fuel, rsq) == fuel,
    decreases fuel,
{
    if fuel > 0 {
        lemma_zero_orbit_runs_to_cap((fuel - 1) as nat, rsq);
    }
}

/// The number of recurrence steps `z ← z² + c` applied before the orbit of
/// `z0` reaches the escape radius, capped at `max_iter`.
pub fn escape_time(z0: Cplx, c: Cplx, max_iter: u32, radius: Fx) -> (n: u32)
    requires
        0 < radius@ <= FX_COORD_MAX as int,
        -(FX_COORD_MAX as int) <= c.re@ <= FX_COORD_MAX as int,
        -(FX_COORD_MAX as int) <= c.im@ <= FX_COORD_MAX as int,
    ensures
        n <= max_iter,
        n as nat == escape_time_spec(
            z0.re@,
            z0.im@,
            c.re@,
            c.im@,
            max_iter as nat,
            radius@ * radius@,
        ),
{
    proof {
        lemma_fx_mul_coord_bound(radius@, radius@);
    }
    let rsq: u128 = ((radius.bits as i128) * (radius.bits as i128)) as u128;
    let mut zr: i64 = z0.re.bits;
    let mut zi: i64 = z0.im.bits;
    let mut n: u32 = 0;
    loop
        invariant
            n <= max_iter,
            rsq as int == radius@ * radius@,
            0 < radius@ <= FX_COORD_MAX as int,
            -(FX_COORD_MAX as int) <= c.re@ <= FX_COORD_MAX as int,
            -(FX_COORD_MAX as int) <= c.im@ <= FX_COORD_MAX as int,
            escape_time_spec(z0.re@, z0.im@, c.re@, c.im@, max_iter as nat, rsq as int)
                == n + escape_time_spec(
                zr as int,
                zi as int,
                c.re@,
                c.im@,
                (max_iter - n) as nat,
                rsq as int,
            ),
        decreases max_iter - n,
    {
        let nrm: u128 = norm_sqr(zr, zi);
        if nrm >= rsq || n >= max_iter {
            return n;
        }
        proof {
            lemma_square_nonneg(zr as int);
            lemma_square_nonneg(zi as int);
            lemma_square_bound(zr as int, radius@);
            lemma_square_bound(zi as int, radius@);
        }
        let stepped: (i64, i64) = step(zr, zi, c.re.bits, c.im.bits);
        proof {
            assert(escape_time_spec(zr as int, zi as int, c.re@, c.im@, (max_iter - n) as nat,
                rsq as int) == 1 + escape_time_spec(
                step_re_spec(zr as int, zi as int, c.re@),
                step_im_spec(zr as int, zi as int, c.im@),
                c.re@,
                c.im@,
                (max_iter - n - 1) as nat,
                rsq as int,
            ));
        }
        zr = stepped.0;
        zi = stepped.1;
        n = n + 1;
    }
}

} // verus!
