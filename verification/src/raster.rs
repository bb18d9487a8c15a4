//! Still images: the calls into the `image` crate, each behind a contract
//! that is taken on trust from that crate's source.

use vstd::prelude::*;
use image::DynamicImage::{ImageLuma8, ImageLumaA8, ImageRgb8, ImageRgba8};
use image::{ColorType, GenericImageView, ImageBuffer, ImageOutputFormat};
use crate::dimensions::{saturates, scaled_dimensions};
use crate::encoding::Encoding;
use crate::frame::PixelLayout::{La8, Rgb8, Rgba8, L8};
use crate::frame::{sample_count, DecodedFrame, FrameView, PixelLayout};
use crate::limits::{blocks_fit, samples_fit, MAX_SIDE};

verus! {

/// Whether `bytes` begins with `signature`.
pub open spec fn begins_with(bytes: Seq<u8>, signature: Seq<u8>) -> bool {
    signature.len() <= bytes.len() && bytes.subrange(0, signature.len() as int) == signature
}

/// Whether `bytes` begins with one of the two signatures of a GIF stream,
/// `GIF89a` and `GIF87a`.
pub open spec fn is_sequence_signature(bytes: Seq<u8>) -> bool {
    ||| begins_with(bytes, seq![0x47u8, 0x49u8, 0x46u8, 0x38u8, 0x39u8, 0x61u8])
    ||| begins_with(bytes, seq![0x47u8, 0x49u8, 0x46u8, 0x38u8, 0x37u8, 0x61u8])
}

/// Whether `bytes` begins with the signature of a container that is told
/// apart by its first bytes: PNG, JPEG, GIF, RIFF (WebP), TIFF in either
/// byte order, DDS, BMP, ICO, Radiance HDR, the seven kinds of PNM (the
/// letter `P` and a digit from 1 to 7), farbfeld or AVIF.
pub open spec fn has_known_signature(bytes: Seq<u8>) -> bool {
    ||| begins_with(bytes, seq![0x89u8, 0x50u8, 0x4Eu8, 0x47u8, 0x0Du8, 0x0Au8, 0x1Au8, 0x0Au8])
    ||| begins_with(bytes, seq![0xFFu8, 0xD8u8, 0xFFu8])
    ||| is_sequence_signature(bytes)
    ||| begins_with(bytes, seq![0x52u8, 0x49u8, 0x46u8, 0x46u8])
    ||| begins_with(bytes, seq![0x4Du8, 0x4Du8, 0x00u8, 0x2Au8])
    ||| begins_with(bytes, seq![0x49u8, 0x49u8, 0x2Au8, 0x00u8])
    ||| begins_with(bytes, seq![0x44u8, 0x44u8, 0x53u8, 0x20u8])
    ||| begins_with(bytes, seq![0x42u8, 0x4Du8])
    ||| begins_with(bytes, seq![0x00u8, 0x00u8, 0x01u8, 0x00u8])
    ||| begins_with(
        bytes,
        seq![0x23u8, 0x3Fu8, 0x52u8, 0x41u8, 0x44u8, 0x49u8, 0x41u8, 0x4Eu8, 0x43u8, 0x45u8],
    )
    ||| (bytes.len() >= 2 && bytes[0] == 0x50u8 && 0x31u8 <= bytes[1] <= 0x37u8)
    ||| begins_with(bytes, seq![0x66u8, 0x61u8, 0x72u8, 0x62u8, 0x66u8, 0x65u8, 0x6Cu8, 0x64u8])
    ||| begins_with(
        bytes,
        seq![
            0x00u8,
            0x00u8,
            0x00u8,
            0x20u8,
            0x66u8,
            0x74u8,
            0x79u8,
            0x70u8,
            0x61u8,
            0x76u8,
            0x69u8,
            0x66u8,
        ],
    )
}

/// Tells from the first bytes whether the source is a frame sequence.
///
/// Calls `image::guess_format`. Trusted: that function walks a fixed table
/// of signatures and reports the format of the first one that `bytes`
/// begins with, an error if there is none. The contract restates the table;
/// no signature in it is a prefix of another format's, so a GIF signature is
/// reported as GIF and nothing else is.
#[verifier::external_body]
pub(crate) fn sniff_sequence(bytes: &[u8]) -> (r: Result<bool, image::ImageError>)
    ensures
        r is Ok <==> has_known_signature(bytes@),
        r is Ok ==> r->Ok_0 == is_sequence_signature(bytes@),
{
    image::guess_format(bytes).map(|format| format == image::ImageFormat::Gif)
}

/// The frame that the bytes of a still image decode to, `None` where they
/// are no image that the decoders accept.
pub uninterp spec fn still_frame(bytes: Seq<u8>) -> Option<FrameView>;

/// Decodes a still image.
///
/// Calls `image::load_from_memory`. Trusted: the outcome depends on the
/// bytes alone, so it has a name. An image of one of the four layouts of
/// `PixelLayout` is handed on with its own samples; an image of any other
/// layout (16 bits per sample, or blue first) is converted to `Rgba8` by
/// `DynamicImage::into_rgba8`. Nothing is claimed of the frame's geometry.
#[verifier::external_body]
pub(crate) fn decode_still(bytes: &[u8]) -> (r: Result<DecodedFrame, image::ImageError>)
    ensures
        match r {
            Ok(frame) => still_frame(bytes@) == Some(frame@),
            Err(_) => still_frame(bytes@) is None,
        },
{
    let image = image::load_from_memory(bytes)?;
    let (layout, image) = match image.color() {
        ColorType::L8 => (L8, image),
        ColorType::La8 => (La8, image),
        ColorType::Rgb8 => (Rgb8, image),
        ColorType::Rgba8 => (Rgba8, image),
        _ => (Rgba8, ImageRgba8(image.into_rgba8())),
    };
    let (width, height) = image.dimensions();
    Ok(DecodedFrame { width, height, layout, samples: image.into_bytes(), delay: 0, left: 0, top: 0 })
}

/// Whether `width` x `height` pixels can be scaled to exactly `nwidth` x
/// `nheight`: no side is zero or beyond `MAX_SIDE`, the result can be
/// allocated and the sums over the pixels of a block stay within 32 bits.
pub open spec fn stretch_sizes(width: u32, height: u32, layout: PixelLayout, nwidth: u32, nheight: u32) -> bool {
    &&& 1 <= width <= MAX_SIDE
    &&& 1 <= height <= MAX_SIDE
    &&& 1 <= nwidth <= MAX_SIDE
    &&& 1 <= nheight <= MAX_SIDE
    &&& samples_fit(nwidth, nheight, layout)
    &&& blocks_fit(width, height, nwidth, nheight)
}

/// Whether `width` x `height` pixels can be fitted into the box `nwidth` x
/// `nheight`: the box has no zero side and the pixels can be scaled to the
/// fitted dimensions.
pub open spec fn fit_sizes(width: u32, height: u32, layout: PixelLayout, nwidth: u32, nheight: u32) -> bool {
    &&& nwidth >= 1
    &&& nheight >= 1
    &&& stretch_sizes(
        width,
        height,
        layout,
        scaled_dimensions(width, height, nwidth, nheight, false).0,
        scaled_dimensions(width, height, nwidth, nheight, false).1,
    )
}

/// Whether `width` x `height` pixels can be scaled to cover the box
/// `nwidth` x `nheight` and then cut to it: no side is zero, the covering
/// dimensions do not saturate, no side is beyond `MAX_SIDE` and the buffers
/// of the two passes can be allocated.
pub open spec fn fill_sizes(width: u32, height: u32, layout: PixelLayout, nwidth: u32, nheight: u32) -> bool {
    let cover = scaled_dimensions(width, height, nwidth, nheight, true);
    &&& 1 <= width <= MAX_SIDE
    &&& 1 <= height <= MAX_SIDE
    &&& nwidth >= 1
    &&& nheight >= 1
    &&& !saturates(width, height, nwidth, nheight, true)
    &&& cover.0 <= MAX_SIDE
    &&& cover.1 <= MAX_SIDE
    &&& samples_fit(width, cover.1, layout)
    &&& samples_fit(cover.0, cover.1, layout)
}

/// Whether a frame can be scaled to exactly `width` x `height`.
pub open spec fn can_stretch(frame: FrameView, width: u32, height: u32) -> bool {
    frame.valid() && stretch_sizes(frame.width, frame.height, frame.layout, width, height)
}

/// Whether a frame can be fitted into the box `width` x `height`.
pub open spec fn can_fit(frame: FrameView, width: u32, height: u32) -> bool {
    frame.valid() && fit_sizes(frame.width, frame.height, frame.layout, width, height)
}

/// Whether a frame can be scaled to cover the box `width` x `height` and
/// then cut to it.
pub open spec fn can_fill(frame: FrameView, width: u32, height: u32) -> bool {
    frame.valid() && fill_sizes(frame.width, frame.height, frame.layout, width, height)
}

/// The samples of a frame fitted into a box.
pub uninterp spec fn fitted_samples(frame: FrameView, width: u32, height: u32) -> Seq<u8>;

/// The samples of a frame scaled to exact dimensions.
pub uninterp spec fn stretched_samples(frame: FrameView, width: u32, height: u32) -> Seq<u8>;

/// The samples of a frame scaled to cover a box and cut to it.
pub uninterp spec fn filled_samples(frame: FrameView, width: u32, height: u32) -> Seq<u8>;

/// Scales a frame to the largest size of its aspect ratio within the box
/// `width` x `height`; gives the new width, height and samples.
///
/// Calls `DynamicImage::thumbnail`. Trusted: that method computes the
/// dimensions by the same arithmetic as `scaled_dimensions` without `fill`
/// and allocates exactly the samples of that many pixels; the samples depend
/// on the arguments alone, so they have a name. The precondition leaves out
/// what the method does not take: a frame without pixels, positions that
/// single precision does not hold, a result too large to allocate and
/// blocks whose sums leave 32 bits.
#[verifier::external_body]
pub(crate) fn scale_to_fit(frame: &DecodedFrame, width: u32, height: u32) -> (out: (u32, u32, Vec<u8>))
    requires
        can_fit(frame@, width, height),
    ensures
        (out.0, out.1) == scaled_dimensions(frame.width, frame.height, width, height, false),
        out.2@ == fitted_samples(frame@, width, height),
        out.2@.len() == sample_count(out.0, out.1, frame.layout),
{
    let (w, h, data) = (frame.width, frame.height, frame.samples.clone());
    let image = match frame.layout {
        L8 => ImageBuffer::from_raw(w, h, data).map(ImageLuma8),
        La8 => ImageBuffer::from_raw(w, h, data).map(ImageLumaA8),
        Rgb8 => ImageBuffer::from_raw(w, h, data).map(ImageRgb8),
        Rgba8 => ImageBuffer::from_raw(w, h, data).map(ImageRgba8),
    };
    let scaled = image.unwrap().thumbnail(width, height);
    (scaled.width(), scaled.height(), scaled.into_bytes())
}

/// Scales a frame to exactly `width` x `height`, whatever its aspect ratio
/// is; gives the new width, height and samples.
///
/// Calls `DynamicImage::thumbnail_exact`. Trusted: the result has the
/// dimensions asked for and exactly the samples of that many pixels; the
/// samples depend on the arguments alone, so they have a name. The
/// precondition leaves out what the method does not take: a frame or a
/// target without pixels, positions that single precision does not hold, a
/// result too large to allocate and blocks whose sums leave 32 bits.
#[verifier::external_body]
pub(crate) fn scale_exact(frame: &DecodedFrame, width: u32, height: u32) -> (out: (u32, u32, Vec<u8>))
    requires
        can_stretch(frame@, width, height),
    ensures
        (out.0, out.1) == (width, height),
        out.2@ == stretched_samples(frame@, width, height),
        out.2@.len() == sample_count(out.0, out.1, frame.layout),
{
    let (w, h, data) = (frame.width, frame.height, frame.samples.clone());
    let image = match frame.layout {
        L8 => ImageBuffer::from_raw(w, h, data).map(ImageLuma8),
        La8 => ImageBuffer::from_raw(w, h, data).map(ImageLumaA8),
        Rgb8 => ImageBuffer::from_raw(w, h, data).map(ImageRgb8),
        Rgba8 => ImageBuffer::from_raw(w, h, data).map(ImageRgba8),
    };
    let scaled = image.unwrap().thumbnail_exact(width, height);
    (scaled.width(), scaled.height(), scaled.into_bytes())
}

/// Scales a frame with a linear filter until it covers the box `width` x
/// `height`, then cuts the overflow off on both sides alike; gives the new
/// width, height and samples.
///
/// Calls `DynamicImage::resize_to_fill` with the `Triangle` filter.
/// Trusted: that method scales to the dimensions of `scaled_dimensions` with
/// `fill`, which reach the box unless they saturate, and cuts out a
/// rectangle of the size of the box; the samples depend on the arguments
/// alone, so they have a name. The precondition leaves out what the method
/// does not take: a frame or a box without pixels, covering dimensions that
/// saturate, positions that single precision does not hold and buffers too
/// large to allocate.
#[verifier::external_body]
pub(crate) fn scale_to_fill(frame: &DecodedFrame, width: u32, height: u32) -> (out: (u32, u32, Vec<u8>))
    requires
        can_fill(frame@, width, height),
    ensures
        (out.0, out.1) == (width, height),
        out.2@ == filled_samples(frame@, width, height),
        out.2@.len() == sample_count(out.0, out.1, frame.layout),
{
    let (w, h, data) = (frame.width, frame.height, frame.samples.clone());
    let image = match frame.layout {
        L8 => ImageBuffer::from_raw(w, h, data).map(ImageLuma8),
        La8 => ImageBuffer::from_raw(w, h, data).map(ImageLumaA8),
        Rgb8 => ImageBuffer::from_raw(w, h, data).map(ImageRgb8),
        Rgba8 => ImageBuffer::from_raw(w, h, data).map(ImageRgba8),
    };
    let scaled = image.unwrap().resize_to_fill(width, height, image::imageops::FilterType::Triangle);
    (scaled.width(), scaled.height(), scaled.into_bytes())
}

/// The bytes of a frame encoded as JPEG, PNG or GIF, `None` where the
/// encoder refuses the frame.
pub uninterp spec fn still_bytes(frame: FrameView, encoding: Encoding, quality: u8) -> Option<Seq<u8>>;

/// Encodes a frame as JPEG with the given quality, as PNG or as a GIF of
/// one frame.
///
/// Calls `DynamicImage::write_to`. Trusted: the outcome depends on the
/// arguments alone, so it has a name; `quality` takes part for JPEG only.
/// The frame has to be valid, else no image can be made of it.
#[verifier::external_body]
pub(crate) fn write_still(frame: &DecodedFrame, encoding: Encoding, quality: u8) -> (r: Result<
    Vec<u8>,
    image::ImageError,
>)
    requires
        frame@.valid(),
        encoding != Encoding::WebP,
    ensures
        match r {
            Ok(bytes) => still_bytes(frame@, encoding, quality) == Some(bytes@),
            Err(_) => still_bytes(frame@, encoding, quality) is None,
        },
{
    let (w, h, data) = (frame.width, frame.height, frame.samples.clone());
    let image = match frame.layout {
        L8 => ImageBuffer::from_raw(w, h, data).map(ImageLuma8),
        La8 => ImageBuffer::from_raw(w, h, data).map(ImageLumaA8),
        Rgb8 => ImageBuffer::from_raw(w, h, data).map(ImageRgb8),
        Rgba8 => ImageBuffer::from_raw(w, h, data).map(ImageRgba8),
    };
    let format = match encoding {
        Encoding::Jpeg => ImageOutputFormat::Jpeg(quality),
        Encoding::Png => ImageOutputFormat::Png,
        _ => ImageOutputFormat::Gif,
    };
    let mut bytes = Vec::new();
    image.unwrap().write_to(&mut bytes, format).map(|_| bytes)
}

} // verus!
