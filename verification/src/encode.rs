//! PNG encoding of the finished raster and the one-call rendering
//! pipeline. Encoding is the single step delegated to the `image` crate;
//! everything around it is verified.

use vstd::prelude::*;
use image::ImageEncoder;
use crate::config::{Config, ConfigError, GRID_MAX};
use crate::render::{render, image_bytes};

verus! {

/// The PNG stream that the `image` crate's encoder produces for a
/// row-major RGB8 raster of the given square side.
pub uninterp spec fn png_bytes_of(pixels: Seq<u8>, side: u32) -> Seq<u8>;

/// Relies on `image::codecs::png::PngEncoder::write_image`, writing into
/// an in-memory buffer: for an RGB8 raster of exactly `3·side²` bytes the
/// PNG stream it produces depends on the pixel bytes and the dimensions
/// alone. Under the length premise — the encoder's own, checked before it
/// writes anything — encoding succeeds: the dimensions are nonzero, RGB8
/// with eight-bit depth is a valid PNG color combination, and writes into
/// a `Vec`-backed cursor do not fail. The `None` arm only guards that
/// reading of the encoder.
#[verifier::external_body]
fn encode_png(pixels: &Vec<u8>, side: u32) -> (r: Option<Vec<u8>>)
    requires
        1 <= side <= GRID_MAX,
        pixels@.len() == 3 * ((side as int) * (side as int)),
    ensures
        r is Some,
        (r matches Some(b) ==> b@ == png_bytes_of(pixels@, side)),
{
    let mut cur = std::io::Cursor::new(Vec::new());
    let enc = image::codecs::png::PngEncoder::new(&mut cur);
    match enc.write_image(pixels, side, side, image::ExtendedColorType::Rgb8) {
        Ok(()) => Some(cur.into_inner()),
        Err(_) => None,
    }
}

/// Why a run produced no image.
#[derive(Clone, Copy, PartialEq, Eq, Structural, Debug)]
pub enum RenderError {
    /// The configuration was rejected before any computation.
    BadConfig(ConfigError),
    /// The PNG encoder refused the finished raster. The encoder's contract
    /// rules this out for every raster the renderer hands it, so a valid
    /// configuration never produces this; the variant guards that trusted
    /// claim.
    Encoding,
}

/// Renders the grid of a configuration and encodes it as a PNG stream,
/// all in memory: the bytes returned are exactly the encoding of the
/// raster `image_bytes`, so two runs over one configuration agree byte
/// for byte.
pub fn render_png(cfg: &Config) -> (r: Result<Vec<u8>, RenderError>)
    ensures
        r is Ok <==> cfg.valid(),
        (r matches Ok(bytes) ==> bytes@ == png_bytes_of(image_bytes(*cfg), cfg.gridsize)),
        (!cfg.valid() ==> (r matches Err(RenderError::BadConfig(e)) && cfg.validate_spec()
            == Err::<(), ConfigError>(e))),
{
    let buf: Vec<u8> = match render(cfg) {
        Ok(b) => b,
        Err(e) => {
            return Err(RenderError::BadConfig(e));
        },
    };
    proof {
        assert(3 * ((cfg.gridsize as int) * (cfg.gridsize as int)) == 3 * (cfg.gridsize as int) * (
        cfg.gridsize as int)) by (nonlinear_arith);
    }
    match encode_png(&buf, cfg.gridsize) {
        Some(bytes) => Ok(bytes),
        None => Err(RenderError::Encoding),
    }
}

/// Determinism, end to end: the PNG stream is a function of the raster,
/// and the raster a function of the configuration, so two successful runs
/// over equal configurations produce byte-identical images.
pub proof fn lemma_png_deterministic(cfg1: Config, cfg2: Config, a: Seq<u8>, b: Seq<u8>)
    requires
        cfg1 == cfg2,
        a == png_bytes_of(image_bytes(cfg1), cfg1.gridsize),
        b == png_bytes_of(image_bytes(cfg2), cfg2.gridsize),
    ensures
        a == b,
{
}

} // verus!
