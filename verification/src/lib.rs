//! A verified Julia-set renderer.
//!
//! Every plane coordinate is a signed fixed-point number with 32 fractional
//! bits, so the whole kernel — mapping pixel coordinates onto the complex
//! plane, iterating the quadratic recurrence until escape, and scaling the
//! iteration count to a greyscale intensity — is exact integer arithmetic
//! with proved contracts. Only the final PNG encoding is delegated to the
//! `image` crate, behind a trusted wrapper; writing the file to disk is left
//! to the embedding program.

pub mod config;
pub mod cplx;
pub mod encode;
pub mod escape;
pub mod fixed;
pub mod mapper;
pub mod render;
