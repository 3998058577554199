//! The run configuration and its validation.
//!
//! Every parameter of a run is carried explicitly; a configuration is
//! checked once, before any computation, and each way it can be rejected is
//! a distinct error.

use vstd::prelude::*;
use crate::fixed::{Fx, FX_COORD_MAX};
use crate::cplx::Cplx;
use crate::mapper::Bounds;

verus! {

/// Largest accepted grid side, so a grid's RGB buffer of `3·g²` bytes
/// stays far inside `usize` on any machine.
pub const GRID_MAX: u32 = 32768;

/// Everything one run depends on. The output path is no concern of the
/// kernel: the caller decides where the encoded bytes go.
#[derive(Clone, Copy, PartialEq, Eq, Structural, Debug)]
pub struct Config {
    /// The Julia parameter: the fixed `c` of the recurrence `z ← z² + c`.
    pub c: Cplx,
    /// The sampled interval of the real axis, swept by the row index.
    pub bounds_x: Bounds,
    /// The sampled interval of the imaginary axis, swept by the column index.
    pub bounds_y: Bounds,
    /// Side length of the square pixel grid.
    pub gridsize: u32,
    /// Cap on the number of recurrence steps per point.
    pub max_iter: u32,
    /// The orbit escapes when its norm reaches this radius.
    pub escape_radius: Fx,
    /// Linear factor from iteration count to greyscale intensity.
    pub brightening: Fx,
}

/// Why a configuration was rejected.
#[derive(Clone, Copy, PartialEq, Eq, Structural, Debug)]
pub enum ConfigError {
    /// The grid side is zero: there would be no pixels.
    ZeroGridsize,
    /// The grid side exceeds `GRID_MAX`.
    GridsizeTooLarge,
    /// The iteration cap is zero: every pixel would be trivially dark.
    ZeroMaxIter,
    /// An axis interval is empty or reversed, or leaves the coordinate
    /// range, on the real axis.
    BadBoundsX,
    /// The same, on the imaginary axis.
    BadBoundsY,
    /// A component of the Julia parameter leaves the coordinate range.
    ParameterOutOfRange,
    /// The escape radius is not positive, or leaves the coordinate range.
    BadRadius,
    /// The brightening factor is negative.
    NegativeBrightening,
}

impl Config {
    /// A configuration every function of the kernel accepts.
    pub open spec fn valid(self) -> bool {
        &&& 1 <= self.gridsize <= GRID_MAX
        &&& self.max_iter >= 1
        &&& self.bounds_x.wf()
        &&& self.bounds_y.wf()
        &&& -(FX_COORD_MAX as int) <= self.c.re@ <= FX_COORD_MAX as int
        &&& -(FX_COORD_MAX as int) <= self.c.im@ <= FX_COORD_MAX as int
        &&& 0 < self.escape_radius@ <= FX_COORD_MAX as int
        &&& self.brightening@ >= 0
    }

    /// The outcome of validation: the first failed check, in the order the
    /// checks run, or nothing.
    pub open spec fn validate_spec(self) -> Result<(), ConfigError> {
        if self.gridsize == 0 {
            Err(ConfigError::ZeroGridsize)
        } else if self.gridsize > GRID_MAX {
            Err(ConfigError::GridsizeTooLarge)
        } else if self.max_iter == 0 {
            Err(ConfigError::ZeroMaxIter)
        } else if !self.bounds_x.wf() {
            Err(ConfigError::BadBoundsX)
        } else if !self.bounds_y.wf() {
            Err(ConfigError::BadBoundsY)
        } else if !(-(FX_COORD_MAX as int) <= self.c.re@ <= FX_COORD_MAX as int
            && -(FX_COORD_MAX as int) <= self.c.im@ <= FX_COORD_MAX as int) {
            Err(ConfigError::ParameterOutOfRange)
        } else if !(0 < self.escape_radius@ <= FX_COORD_MAX as int) {
            Err(ConfigError::BadRadius)
        } else if self.brightening@ < 0 {
            Err(ConfigError::NegativeBrightening)
        } else {
            Ok(())
        }
    }

    /// Checks the configuration; a run starts only on `Ok`.
    pub fn validate(&self) -> (r: Result<(), ConfigError>)
        ensures
            r == self.validate_spec(),
            r is Ok <==> self.valid(),
    {
        if self.gridsize == 0 {
            Err(ConfigError::ZeroGridsize)
        } else if self.gridsize > GRID_MAX {
            Err(ConfigError::GridsizeTooLarge)
        } else if self.max_iter == 0 {
            Err(ConfigError::ZeroMaxIter)
        } else if !(self.bounds_x.min.bits < self.bounds_x.max.bits
            && -FX_COORD_MAX <= self.bounds_x.min.bits && self.bounds_x.max.bits <= FX_COORD_MAX) {
            Err(ConfigError::BadBoundsX)
        } else if !(self.bounds_y.min.bits < self.bounds_y.max.bits
            && -FX_COORD_MAX <= self.bounds_y.min.bits && self.bounds_y.max.bits <= FX_COORD_MAX) {
            Err(ConfigError::BadBoundsY)
        } else if !(-FX_COORD_MAX <= self.c.re.bits && self.c.re.bits <= FX_COORD_MAX
            && -FX_COORD_MAX <= self.c.im.bits && self.c.im.bits <= FX_COORD_MAX) {
            Err(ConfigError::ParameterOutOfRange)
        } else if !(0 < self.escape_radius.bits && self.escape_radius.bits <= FX_COORD_MAX) {
            Err(ConfigError::BadRadius)
        } else if self.brightening.bits < 0 {
            Err(ConfigError::NegativeBrightening)
        } else {
            Ok(())
        }
    }
}

} // verus!
