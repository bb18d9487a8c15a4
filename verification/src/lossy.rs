//! Lossy WebP: the calls into the `webp` crate.

use vstd::prelude::*;
use crate::limits::MAX_WEBP_SIDE;

verus! {

/// Whether `samples` holds `width` x `height` pixels of `channels` bytes
/// each, with both sides within what the encoder takes.
pub open spec fn webp_input(samples: Seq<u8>, width: u32, height: u32, channels: int) -> bool {
    &&& 1 <= width <= MAX_WEBP_SIDE
    &&& 1 <= height <= MAX_WEBP_SIDE
    &&& samples.len() == width as int * height as int * channels
}

/// Encodes pixels of red, green and blue as lossy WebP.
///
/// Calls `webp::Encoder::from_rgb` and `webp::Encoder::encode`. Trusted:
/// the encoder reads `width * height * 3` bytes and takes sides from 1 to
/// 16383, which the precondition guarantees. Nothing is claimed of the bytes
/// that come back: the underlying encoder picks its routines by the
/// processor it runs on.
#[verifier::external_body]
pub(crate) fn webp_from_rgb(samples: &[u8], width: u32, height: u32, quality: u8) -> (bytes: Vec<u8>)
    requires
        webp_input(samples@, width, height, 3),
        quality <= 100,
{
    webp::Encoder::from_rgb(samples, width, height).encode(quality.into()).to_vec()
}

/// Encodes pixels of red, green, blue and alpha as lossy WebP.
///
/// Calls `webp::Encoder::from_rgba` and `webp::Encoder::encode`. Trusted:
/// the encoder reads `width * height * 4` bytes and takes sides from 1 to
/// 16383, which the precondition guarantees. Nothing is claimed of the bytes
/// that come back.
#[verifier::external_body]
pub(crate) fn webp_from_rgba(samples: &[u8], width: u32, height: u32, quality: u8) -> (bytes: Vec<u8>)
    requires
        webp_input(samples@, width, height, 4),
        quality <= 100,
{
    webp::Encoder::from_rgba(samples, width, height).encode(quality.into()).to_vec()
}

} // verus!
