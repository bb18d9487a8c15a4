//! Resampling of one frame by one of the three strategies.

use vstd::prelude::*;
use crate::dimensions::{
    lemma_default_passthrough, lemma_fit_within_box, lemma_resolved_in_box, lemma_saturation,
    resize_dimensions, resolved,
};
use crate::error::ResampleError;
use crate::frame::{DecodedFrame, FrameView, PixelLayout};
use crate::limits::{samples_fit, MAX_BLOCK, MAX_SIDE};
use crate::mode::ResizeMode;
use crate::raster::{
    fill_sizes, filled_samples, fit_sizes, fitted_samples, scale_exact, scale_to_fill,
    scale_to_fit, stretch_sizes, stretched_samples,
};

verus! {

/// Whether the sizes that resampling works with are within the limits of
/// its arithmetic, for a source of `width` x `height` pixels.
pub open spec fn sizes_fit(
    width: u32,
    height: u32,
    layout: PixelLayout,
    mode: ResizeMode,
    nwidth: u32,
    nheight: u32,
) -> bool {
    match mode {
        ResizeMode::Contain => fit_sizes(width, height, layout, nwidth, nheight),
        ResizeMode::Crop => fill_sizes(width, height, layout, nwidth, nheight),
        ResizeMode::Stretch => stretch_sizes(width, height, layout, nwidth, nheight),
    }
}

/// Why `width` x `height` pixels are not resampled, `None` where they are:
/// a target without pixels comes first, then a source without pixels, then
/// sizes beyond the limits.
pub open spec fn size_refusal(
    width: u32,
    height: u32,
    layout: PixelLayout,
    mode: ResizeMode,
    nwidth: u32,
    nheight: u32,
) -> Option<ResampleError> {
    if nwidth == 0 || nheight == 0 {
        Some(ResampleError::ZeroTarget)
    } else if width == 0 || height == 0 {
        Some(ResampleError::Geometry)
    } else if !sizes_fit(width, height, layout, mode, nwidth, nheight) {
        Some(ResampleError::TooLarge)
    } else {
        None
    }
}

/// Why a frame is not resampled, `None` where it is: a target without
/// pixels comes first, then a frame of inconsistent geometry, then sizes
/// beyond the limits.
pub open spec fn refusal(frame: FrameView, mode: ResizeMode, width: u32, height: u32) -> Option<
    ResampleError,
> {
    if width == 0 || height == 0 {
        Some(ResampleError::ZeroTarget)
    } else if !frame.valid() {
        Some(ResampleError::Geometry)
    } else {
        size_refusal(frame.width, frame.height, frame.layout, mode, width, height)
    }
}

/// The samples of the resampled frame.
pub open spec fn resampled_samples(frame: FrameView, mode: ResizeMode, width: u32, height: u32) -> Seq<
    u8,
> {
    match mode {
        ResizeMode::Contain => fitted_samples(frame, width, height),
        ResizeMode::Crop => filled_samples(frame, width, height),
        ResizeMode::Stretch => stretched_samples(frame, width, height),
    }
}

/// The resampled frame: its dimensions are those that the box `width` x
/// `height` resolves to for the frame, its layout, timing and placement are
/// the frame's own.
pub open spec fn resampled(frame: FrameView, mode: ResizeMode, width: u32, height: u32) -> FrameView {
    FrameView {
        width: resolved(frame.width, frame.height, Some(width), Some(height), mode).0,
        height: resolved(frame.width, frame.height, Some(width), Some(height), mode).1,
        layout: frame.layout,
        samples: resampled_samples(frame, mode, width, height),
        delay: frame.delay,
        left: frame.left,
        top: frame.top,
    }
}

proof fn lemma_side_product(a: u32, b: u32, c: int)
    by (nonlinear_arith)
    requires
        a <= MAX_SIDE,
        b <= MAX_SIDE,
        1 <= c <= 4,
    ensures
        0 <= a as int * b as int <= 0x1_0000_0000_0000,
        0 <= a as int * b as int * c <= 0x4_0000_0000_0000,
{
}

proof fn lemma_block_product(a: int, b: int)
    by (nonlinear_arith)
    requires
        0 <= a <= 0x100_0004,
        0 <= b <= 0x100_0004,
    ensures
        0 <= a * b <= 0x1_0000_0800_0010,
{
}

/// Tells whether a buffer of `width` x `height` pixels can be allocated.
fn fits_memory(width: u32, height: u32, layout: PixelLayout) -> (fits: bool)
    requires
        width <= MAX_SIDE,
        height <= MAX_SIDE,
    ensures
        fits == samples_fit(width, height, layout),
{
    proof {
        lemma_side_product(width, height, layout.channels());
    }
    let samples: u64 = (width as u64) * (height as u64) * (layout.channel_count() as u64);
    samples <= (usize::MAX / 2) as u64
}

/// Tells whether `width` x `height` pixels can be scaled to exactly
/// `nwidth` x `nheight`.
fn fits_stretch(width: u32, height: u32, layout: PixelLayout, nwidth: u32, nheight: u32) -> (fits: bool)
    ensures
        fits == stretch_sizes(width, height, layout, nwidth, nheight),
{
    if width < 1 || width > MAX_SIDE || height < 1 || height > MAX_SIDE {
        return false;
    }
    if nwidth < 1 || nwidth > MAX_SIDE || nheight < 1 || nheight > MAX_SIDE {
        return false;
    }
    if !fits_memory(nwidth, nheight, layout) {
        return false;
    }
    let across: u64 = (width / nwidth) as u64 + 4;
    let down: u64 = (height / nheight) as u64 + 4;
    proof {
        lemma_block_product(across as int, down as int);
    }
    across * down <= MAX_BLOCK
}

/// Tells whether `width` x `height` pixels can be fitted into the box
/// `nwidth` x `nheight`.
fn fits_contain(width: u32, height: u32, layout: PixelLayout, nwidth: u32, nheight: u32) -> (fits: bool)
    requires
        width >= 1,
        height >= 1,
    ensures
        fits == fit_sizes(width, height, layout, nwidth, nheight),
{
    if nwidth < 1 || nheight < 1 {
        return false;
    }
    let fitted: (u32, u32) = resize_dimensions(width, height, nwidth, nheight, false);
    fits_stretch(width, height, layout, fitted.0, fitted.1)
}

/// Tells whether `width` x `height` pixels can be scaled to cover the box
/// `nwidth` x `nheight` and cut to it.
fn fits_fill(width: u32, height: u32, layout: PixelLayout, nwidth: u32, nheight: u32) -> (fits: bool)
    requires
        width >= 1,
        height >= 1,
    ensures
        fits == fill_sizes(width, height, layout, nwidth, nheight),
{
    if width > MAX_SIDE || height > MAX_SIDE || nwidth < 1 || nheight < 1 {
        return false;
    }
    let cover: (u32, u32) = resize_dimensions(width, height, nwidth, nheight, true);
    proof {
        lemma_saturation(width, height, nwidth, nheight, true);
    }
    if cover.0 > MAX_SIDE || cover.1 > MAX_SIDE {
        return false;
    }
    fits_memory(width, cover.1, layout) && fits_memory(cover.0, cover.1, layout)
}

/// Tells why `width` x `height` pixels are not resampled, `None` where they
/// are.
pub fn check_sizes(
    width: u32,
    height: u32,
    layout: PixelLayout,
    mode: ResizeMode,
    nwidth: u32,
    nheight: u32,
) -> (reason: Option<ResampleError>)
    ensures
        reason == size_refusal(width, height, layout, mode, nwidth, nheight),
{
    if nwidth == 0 || nheight == 0 {
        return Some(ResampleError::ZeroTarget);
    }
    if width == 0 || height == 0 {
        return Some(ResampleError::Geometry);
    }
    let fits: bool = match mode {
        ResizeMode::Contain => fits_contain(width, height, layout, nwidth, nheight),
        ResizeMode::Crop => fits_fill(width, height, layout, nwidth, nheight),
        ResizeMode::Stretch => fits_stretch(width, height, layout, nwidth, nheight),
    };
    if fits {
        None
    } else {
        Some(ResampleError::TooLarge)
    }
}

/// Tells why a frame is not resampled, `None` where it is.
pub fn check_resample(frame: &DecodedFrame, mode: ResizeMode, width: u32, height: u32) -> (reason: Option<
    ResampleError,
>)
    ensures
        reason == refusal(frame@, mode, width, height),
{
    if width == 0 || height == 0 {
        return Some(ResampleError::ZeroTarget);
    }
    if !frame.has_valid_geometry() {
        return Some(ResampleError::Geometry);
    }
    check_sizes(frame.width, frame.height, frame.layout, mode, width, height)
}

/// Resize a frame.
///
/// `Contain` scales the frame to the largest size of its aspect ratio
/// inside the box `width` x `height`; `Crop` scales it with a linear filter
/// until it covers the box and cuts the overflow off; `Stretch` scales it to
/// exactly `width` x `height`. The frame itself is left as it is.
pub fn resize_dynimage(image: &DecodedFrame, mode: &ResizeMode, width: u32, height: u32) -> (r: Result<
    DecodedFrame,
    ResampleError,
>)
    ensures
        match r {
            Ok(out) => refusal(image@, *mode, width, height) is None && out@ == resampled(
                image@,
                *mode,
                width,
                height,
            ),
            Err(e) => refusal(image@, *mode, width, height) == Some(e),
        },
        r is Ok ==> r->Ok_0@.valid(),
        r is Ok ==> r->Ok_0.width <= width && r->Ok_0.height <= height,
        r is Ok ==> r->Ok_0.width == width || r->Ok_0.height == height,
        r is Ok && *mode != ResizeMode::Contain ==> r->Ok_0.width == width && r->Ok_0.height
            == height,
{
    match check_resample(image, *mode, width, height) {
        Some(e) => {
            return Err(e);
        },
        None => {},
    }
    proof {
        lemma_fit_within_box(image.width, image.height, width, height);
        lemma_saturation(image.width, image.height, width, height, false);
    }
    let scaled: (u32, u32, Vec<u8>) = match mode {
        ResizeMode::Contain => scale_to_fit(image, width, height),
        ResizeMode::Crop => scale_to_fill(image, width, height),
        ResizeMode::Stretch => scale_exact(image, width, height),
    };
    Ok(
        DecodedFrame {
            width: scaled.0,
            height: scaled.1,
            layout: image.layout,
            samples: scaled.2,
            delay: image.delay,
            left: image.left,
            top: image.top,
        },
    )
}

/// A resampled frame is valid and lies within the box; it touches the box
/// on one axis at least, and `Crop` and `Stretch` fill the box exactly.
pub proof fn lemma_resampled_in_box(frame: FrameView, mode: ResizeMode, width: u32, height: u32)
    requires
        refusal(frame, mode, width, height) is None,
    ensures
        1 <= resampled(frame, mode, width, height).width <= width,
        1 <= resampled(frame, mode, width, height).height <= height,
        resampled(frame, mode, width, height).width == width || resampled(
            frame,
            mode,
            width,
            height,
        ).height == height,
        mode != ResizeMode::Contain ==> resampled(frame, mode, width, height).width == width
            && resampled(frame, mode, width, height).height == height,
{
    lemma_resolved_in_box(frame.width, frame.height, width, height, mode);
}

/// Resampling a frame into a box of its own size keeps its size, in every
/// mode.
pub proof fn lemma_resampled_same_size(frame: FrameView, mode: ResizeMode)
    requires
        frame.valid(),
    ensures
        resampled(frame, mode, frame.width, frame.height).width == frame.width,
        resampled(frame, mode, frame.width, frame.height).height == frame.height,
{
    lemma_default_passthrough(frame.width, frame.height, mode, false);
}

} // verus!
