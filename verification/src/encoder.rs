//! Encoding of one frame in the requested container.

use vstd::prelude::*;
use crate::encoding::Encoding;
use crate::error::{CodecFailure, EncodeError, ErrorKind};
use crate::frame::{DecodedFrame, FrameView, PixelLayout};
use crate::limits::{LOSSY_QUALITY, MAX_WEBP_SIDE};
use crate::lossy::{webp_from_rgb, webp_from_rgba};
use crate::raster::{still_bytes, write_still};

verus! {

/// Encoding result.
pub type EncodeResult = Result<Vec<u8>, EncodeError>;

/// Whether WebP can represent the frame: its samples are red, green and
/// blue, with or without alpha, and no side is beyond 16383 pixels.
pub open spec fn webp_takes(frame: FrameView) -> bool {
    &&& frame.layout == PixelLayout::Rgb8 || frame.layout == PixelLayout::Rgba8
    &&& frame.width <= MAX_WEBP_SIDE
    &&& frame.height <= MAX_WEBP_SIDE
}

/// Why a frame is not encoded, `None` where it is. A frame of inconsistent
/// geometry, or one that WebP cannot represent, is unsupported; a frame that
/// the JPEG, PNG or GIF encoder refuses fails with the encoder's report.
pub open spec fn encode_refusal(frame: FrameView, encoding: Encoding) -> Option<ErrorKind> {
    if !frame.valid() {
        Some(ErrorKind::Unsupported)
    } else if encoding == Encoding::WebP {
        if webp_takes(frame) {
            None
        } else {
            Some(ErrorKind::Unsupported)
        }
    } else if still_bytes(frame, encoding, LOSSY_QUALITY) is None {
        Some(ErrorKind::Underlying)
    } else {
        None
    }
}

/// Encode a frame in a specified `Encoding`. JPEG and WebP are written with
/// a quality of 85.
pub fn encode_image(image: &DecodedFrame, encoding: &Encoding) -> (r: EncodeResult)
    ensures
        match r {
            Ok(bytes) => encode_refusal(image@, *encoding) is None && (*encoding != Encoding::WebP
                ==> still_bytes(image@, *encoding, LOSSY_QUALITY) == Some(bytes@)),
            Err(e) => encode_refusal(image@, *encoding) == Some(e.kind()),
        },
        r is Err && r->Err_0 is Underlying ==> r->Err_0->Underlying_0 is Still,
{
    if !image.has_valid_geometry() {
        return Err(EncodeError::Unsupported);
    }
    match encoding {
        Encoding::WebP => {
            if image.width > MAX_WEBP_SIDE || image.height > MAX_WEBP_SIDE {
                return Err(EncodeError::Unsupported);
            }
            match image.layout {
                PixelLayout::Rgb8 => Ok(
                    webp_from_rgb(image.samples.as_slice(), image.width, image.height, LOSSY_QUALITY),
                ),
                PixelLayout::Rgba8 => Ok(
                    webp_from_rgba(image.samples.as_slice(), image.width, image.height, LOSSY_QUALITY),
                ),
                _ => Err(EncodeError::Unsupported),
            }
        },
        Encoding::Jpeg => encode_default_image(image, Encoding::Jpeg),
        Encoding::Png => encode_default_image(image, Encoding::Png),
        Encoding::Gif => encode_default_image(image, Encoding::Gif),
    }
}

/// Encodes a valid frame as JPEG, PNG or GIF.
fn encode_default_image(image: &DecodedFrame, encoding: Encoding) -> (r: EncodeResult)
    requires
        image@.valid(),
        encoding != Encoding::WebP,
    ensures
        match r {
            Ok(bytes) => still_bytes(image@, encoding, LOSSY_QUALITY) == Some(bytes@),
            Err(e) => still_bytes(image@, encoding, LOSSY_QUALITY) is None && e is Underlying
                && e->Underlying_0 is Still,
        },
{
    match write_still(image, encoding, LOSSY_QUALITY) {
        Ok(bytes) => Ok(bytes),
        Err(e) => Err(EncodeError::Underlying(CodecFailure::Still(e))),
    }
}

} // verus!
