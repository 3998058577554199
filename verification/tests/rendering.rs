//! The rendering pass, configuration validation and PNG encoding.

use julia::config::{Config, ConfigError, GRID_MAX};
use julia::cplx::Cplx;
use julia::encode::render_png;
use julia::escape::escape_time;
use julia::fixed::{Fx, FX_COORD_MAX};
use julia::mapper::{map_grid_to_plane, Bounds};
use julia::render::{intensity, render};

fn fx(bits: i64) -> Fx {
    Fx { bits }
}

const ONE: i64 = 4294967296;
const TWO: i64 = 8589934592;

/// The canonical fixture: c = -0.8 + 0.156i (truncated to fixed point),
/// x in [-1.5, 1.5), y in [-1, 1), a 4x4 grid, at most 10 iterations,
/// radius 2, brightening 1.5.
fn scenario() -> Config {
    Config {
        c: Cplx { re: fx(-3435973837), im: fx(670014898) },
        bounds_x: Bounds { min: fx(-3 * ONE / 2), max: fx(3 * ONE / 2) },
        bounds_y: Bounds { min: fx(-ONE), max: fx(ONE) },
        gridsize: 4,
        max_iter: 10,
        escape_radius: fx(TWO),
        brightening: fx(3 * ONE / 2),
    }
}

/// Iteration counts of the 16 grid coordinates of `scenario`, row-major.
const SCENARIO_COUNTS: [[u32; 4]; 4] = [
    [1, 1, 4, 2],
    [1, 3, 10, 4],
    [2, 10, 10, 10],
    [2, 4, 10, 3],
];

#[test]
fn scenario_iteration_counts() {
    let cfg = scenario();
    for row in 0..4u32 {
        for col in 0..4u32 {
            let z0 = map_grid_to_plane(cfg.bounds_x, cfg.bounds_y, row, col, cfg.gridsize);
            let n = escape_time(z0, cfg.c, cfg.max_iter, cfg.escape_radius);
            assert_eq!(n, SCENARIO_COUNTS[row as usize][col as usize]);
        }
    }
}

#[test]
fn raster_covers_the_grid_once() {
    let cfg = scenario();
    let buf = render(&cfg).unwrap();
    let g = cfg.gridsize;
    // Exactly G^2 pixels: three channel bytes each.
    assert_eq!(buf.len(), (3 * g * g) as usize);
    // Every grid coordinate stands at its own offset with its own value.
    for row in 0..g {
        for col in 0..g {
            let z0 = map_grid_to_plane(cfg.bounds_x, cfg.bounds_y, row, col, g);
            let n = escape_time(z0, cfg.c, cfg.max_iter, cfg.escape_radius);
            let v = intensity(n, cfg.brightening);
            let base = (3 * (row * g + col)) as usize;
            assert_eq!(&buf[base..base + 3], &[v, v, v]);
        }
    }
}

#[test]
fn scenario_raster_values() {
    let cfg = scenario();
    let buf = render(&cfg).unwrap();
    for row in 0..4usize {
        for col in 0..4usize {
            // brightening 1.5: count n paints the byte n + n/2.
            let n = SCENARIO_COUNTS[row][col];
            let expected = (n + n / 2) as u8;
            assert_eq!(buf[3 * (row * 4 + col)], expected);
        }
    }
}

#[test]
fn identical_runs_give_identical_images() {
    let cfg = scenario();
    let first = render_png(&cfg).unwrap();
    let second = render_png(&cfg).unwrap();
    assert_eq!(first, second);
}

#[test]
fn png_stream_decodes_back_to_the_raster() {
    let cfg = scenario();
    let raster = render(&cfg).unwrap();
    let png = render_png(&cfg).unwrap();
    // A PNG stream, not the raw raster handed back.
    assert_eq!(&png[..8], &[0x89, 0x50, 0x4e, 0x47, 0x0d, 0x0a, 0x1a, 0x0a]);
    let decoded = image::load_from_memory(&png).unwrap().into_rgb8();
    assert_eq!(decoded.width(), 4);
    assert_eq!(decoded.height(), 4);
    assert_eq!(decoded.into_raw(), raster);
}

#[test]
fn rejects_zero_gridsize() {
    let mut cfg = scenario();
    cfg.gridsize = 0;
    assert_eq!(render(&cfg), Err(ConfigError::ZeroGridsize));
}

#[test]
fn rejects_oversized_gridsize() {
    let mut cfg = scenario();
    cfg.gridsize = GRID_MAX + 1;
    assert_eq!(render(&cfg), Err(ConfigError::GridsizeTooLarge));
}

#[test]
fn rejects_zero_max_iter() {
    let mut cfg = scenario();
    cfg.max_iter = 0;
    assert_eq!(render(&cfg), Err(ConfigError::ZeroMaxIter));
}

#[test]
fn rejects_degenerate_bounds() {
    let mut cfg = scenario();
    cfg.bounds_x = Bounds { min: fx(ONE), max: fx(ONE) };
    assert_eq!(render(&cfg), Err(ConfigError::BadBoundsX));

    let mut cfg = scenario();
    cfg.bounds_y = Bounds { min: fx(ONE), max: fx(-ONE) };
    assert_eq!(render(&cfg), Err(ConfigError::BadBoundsY));
}

#[test]
fn rejects_out_of_range_parameter() {
    let mut cfg = scenario();
    cfg.c = Cplx { re: fx(FX_COORD_MAX + 1), im: fx(0) };
    assert_eq!(render(&cfg), Err(ConfigError::ParameterOutOfRange));
}

#[test]
fn rejects_bad_radius() {
    let mut cfg = scenario();
    cfg.escape_radius = fx(0);
    assert_eq!(render(&cfg), Err(ConfigError::BadRadius));

    let mut cfg = scenario();
    cfg.escape_radius = fx(-TWO);
    assert_eq!(render(&cfg), Err(ConfigError::BadRadius));
}

#[test]
fn rejects_negative_brightening() {
    let mut cfg = scenario();
    cfg.brightening = fx(-ONE);
    assert_eq!(render(&cfg), Err(ConfigError::NegativeBrightening));
}

#[test]
fn validate_accepts_the_scenario() {
    assert_eq!(scenario().validate(), Ok(()));
}
