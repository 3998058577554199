//! The rendering pass: every grid coordinate is mapped onto the plane,
//! evaluated, scaled to an intensity and written into the raster, exactly
//! once, in row-major order. The sweep covers the whole grid — both
//! indices run through all of `[0, G)` — so no row or column is left
//! unpainted.

use vstd::prelude::*;
use vstd::arithmetic::div_mod::{
    lemma_fundamental_div_mod_converse_div, lemma_fundamental_div_mod_converse_mod,
};
use vstd::arithmetic::mul::lemma_mul_upper_bound;
use crate::fixed::{Fx, FX_SCALE};
use crate::config::{Config, ConfigError};
use crate::escape::{escape_time, escape_time_spec};
use crate::mapper::{map_grid_to_plane, lerp_spec};
use crate::cplx::Cplx;

verus! {

/// Greyscale intensity of an iteration count: the count times the
/// brightening factor, truncated toward zero, saturated at 255. Saturation
/// is deliberate: a narrowing cast that wraps modulo 256 would paint a
/// bright band dark again.
pub open spec fn intensity_spec(n: int, factor: int) -> int
    recommends
        n >= 0,
        factor >= 0,
{
    let scaled = (n * factor) / (FX_SCALE as int);
    if scaled > 255 {
        255
    } else {
        scaled
    }
}

/// The channel byte of one pixel for an iteration count.
pub fn intensity(n: u32, factor: Fx) -> (v: u8)
    requires
        factor@ >= 0,
    ensures
        v as int == intensity_spec(n as int, factor@),
{
    proof {
        lemma_mul_upper_bound(n as int, 0x100000000, factor@, 0x8000000000000000);
    }
    let p: u128 = (n as u128) * (factor.bits as u128);
    let q: u128 = p / (FX_SCALE as u128);
    if q > 255 {
        255
    } else {
        q as u8
    }
}

/// The squared escape radius of a configuration, in raw units scaled by
/// 2^64.
pub open spec fn rsq_of(cfg: Config) -> int {
    cfg.escape_radius@ * cfg.escape_radius@
}

/// The escape time of the grid coordinate `(row, col)`.
pub open spec fn count_at(cfg: Config, row: int, col: int) -> nat {
    escape_time_spec(
        lerp_spec(cfg.bounds_x.min@, cfg.bounds_x.max@, row, cfg.gridsize as int),
        lerp_spec(cfg.bounds_y.min@, cfg.bounds_y.max@, col, cfg.gridsize as int),
        cfg.c.re@,
        cfg.c.im@,
        cfg.max_iter as nat,
        rsq_of(cfg),
    )
}

/// The channel byte of the pixel at the grid coordinate `(row, col)`.
pub open spec fn pixel_at(cfg: Config, row: int, col: int) -> u8 {
    intensity_spec(count_at(cfg, row, col) as int, cfg.brightening@) as u8
}

/// The whole raster: one RGB pixel per grid coordinate, row-major, the
/// three channel bytes of a pixel equal (pure greyscale).
pub open spec fn image_bytes(cfg: Config) -> Seq<u8> {
    Seq::new(
        (3 * cfg.gridsize * cfg.gridsize) as nat,
        |k: int| pixel_at(cfg, (k / 3) / (cfg.gridsize as int), (k / 3) % (cfg.gridsize as int)),
    )
}

/// The byte offsets of the pixel at `(row, col)` fall inside the raster
/// and decode back to `(row, col)`.
proof fn lemma_pixel_offsets(g: int, row: int, col: int, ch: int)
    requires
        0 <= row < g,
        0 <= col < g,
        0 <= ch < 3,
    ensures
        0 <= 3 * (row * g + col) + ch < 3 * g * g,
        (3 * (row * g + col) + ch) / 3 == row * g + col,
        (row * g + col) / g == row,
        (row * g + col) % g == col,
{
    let t = row * g + col;
    assert(0 <= t && 3 * t + ch < 3 * g * g) by (nonlinear_arith)
        requires
            0 <= row < g,
            0 <= col < g,
            0 <= ch < 3,
            t == row * g + col,
    ;
    lemma_fundamental_div_mod_converse_div(3 * t + ch, 3, t, ch);
    lemma_fundamental_div_mod_converse_div(t, g, row, col);
    lemma_fundamental_div_mod_converse_mod(t, g, row, col);
}

/// Grid coverage: the raster holds exactly G² pixels — 3·G² channel
/// bytes — and the pixel of each grid coordinate stands at its own
/// offset, so every coordinate in range is painted exactly once.
pub proof fn lemma_grid_coverage(cfg: Config, row: int, col: int, ch: int)
    requires
        0 <= row < cfg.gridsize,
        0 <= col < cfg.gridsize,
        0 <= ch < 3,
    ensures
        image_bytes(cfg).len() == 3 * cfg.gridsize * cfg.gridsize,
        image_bytes(cfg)[3 * (row * cfg.gridsize + col) + ch] == pixel_at(cfg, row, col),
{
    lemma_pixel_offsets(cfg.gridsize as int, row, col, ch);
}

/// Determinism: the raster is a function of the configuration alone, so
/// two runs over equal configurations agree byte for byte.
pub proof fn lemma_render_deterministic(cfg1: Config, cfg2: Config, a: Seq<u8>, b: Seq<u8>)
    requires
        cfg1 == cfg2,
        a == image_bytes(cfg1),
        b == image_bytes(cfg2),
    ensures
        a == b,
{
}

/// Renders the full raster for a configuration, or rejects the
/// configuration before any computation.
pub fn render(cfg: &Config) -> (r: Result<Vec<u8>, ConfigError>)
    ensures
        r is Ok <==> cfg.valid(),
        (r matches Ok(buf) ==> buf@ == image_bytes(*cfg)),
        (r matches Err(e) ==> cfg.validate_spec() == Err::<(), ConfigError>(e)),
{
    if let Err(e) = cfg.validate() {
        return Err(e);
    }
    let g: u32 = cfg.gridsize;
    let mut buf: Vec<u8> = Vec::new();
    let mut row: u32 = 0;
    while row < g
        invariant
            cfg.valid(),
            g == cfg.gridsize,
            row <= g,
            buf@.len() == 3 * ((row as int) * (g as int)),
            forall|k: int| 0 <= k < buf@.len() ==> buf@[k] == image_bytes(*cfg)[k],
        decreases g - row,
    {
        let mut col: u32 = 0;
        while col < g
            invariant
                cfg.valid(),
                g == cfg.gridsize,
                row < g,
                col <= g,
                buf@.len() == 3 * ((row as int) * (g as int) + col as int),
                forall|k: int| 0 <= k < buf@.len() ==> buf@[k] == image_bytes(*cfg)[k],
            decreases g - col,
        {
            let z0: Cplx = map_grid_to_plane(cfg.bounds_x, cfg.bounds_y, row, col, g);
            let n: u32 = escape_time(z0, cfg.c, cfg.max_iter, cfg.escape_radius);
            let v: u8 = intensity(n, cfg.brightening);
            proof {
                lemma_pixel_offsets(g as int, row as int, col as int, 0);
                lemma_pixel_offsets(g as int, row as int, col as int, 1);
                lemma_pixel_offsets(g as int, row as int, col as int, 2);
                assert(v == pixel_at(*cfg, row as int, col as int));
            }
            buf.push(v);
            buf.push(v);
            buf.push(v);
            col = col + 1;
        }
        proof {
            assert(3 * ((row as int) * (g as int) + g as int) == 3 * ((row as int + 1) * (
            g as int))) by (nonlinear_arith);
        }
        row = row + 1;
    }
    proof {
        assert(3 * ((g as int) * (g as int)) == 3 * (g as int) * (g as int)) by (nonlinear_arith);
        assert(buf@ =~= image_bytes(*cfg));
    }
    Ok(buf)
}

} // verus!
