//! The sizes up to which the codecs' arithmetic is exact, and the fixed
//! settings of the encoders.

use vstd::prelude::*;
use crate::frame::{sample_count, PixelLayout};

verus! {

/// The largest side of a frame that is resampled. Sample positions are
/// computed in single precision, which holds every position up to this side
/// to a sixteenth of a pixel.
pub const MAX_SIDE: u32 = 1_048_576;

/// The most source pixels that may fall onto one target pixel when a frame
/// is scaled down: their samples are summed up in 32 bits.
pub const MAX_BLOCK: u64 = 16_777_215;

/// The largest side of a lossy WebP image.
pub const MAX_WEBP_SIDE: u32 = 16_383;

/// The largest side of a frame in a frame sequence.
pub const MAX_SEQUENCE_SIDE: u32 = 65_535;

/// Quality of the lossy encoders, on a scale from 0 to 100.
pub const LOSSY_QUALITY: u8 = 85;

/// Speed of the palette search for the frames of a sequence, from 1
/// (best palette) to 30 (fastest).
pub const PALETTE_SPEED: i32 = 30;

/// Whether a buffer of `width` x `height` pixels can be allocated: a buffer
/// holds at most `isize::MAX` bytes.
pub open spec fn samples_fit(width: u32, height: u32, layout: PixelLayout) -> bool {
    sample_count(width, height, layout) <= (usize::MAX as int) / 2
}

/// An upper bound for the number of source pixels that fall onto one target
/// pixel when `width` x `height` pixels are scaled to `nwidth` x `nheight`.
pub open spec fn block_bound(width: u32, height: u32, nwidth: u32, nheight: u32) -> int {
    (width as int / nwidth as int + 4) * (height as int / nheight as int + 4)
}

/// Whether the sums over the source pixels of one target pixel stay within
/// 32 bits.
pub open spec fn blocks_fit(width: u32, height: u32, nwidth: u32, nheight: u32) -> bool {
    block_bound(width, height, nwidth, nheight) <= MAX_BLOCK as int
}

} // verus!
