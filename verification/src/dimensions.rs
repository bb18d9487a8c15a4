//! Target dimensions: the aspect-ratio arithmetic and its edge cases.

use vstd::prelude::*;
use crate::mode::ResizeMode;

verus! {

/// Whether the requested width is the binding side. The two aspect ratios
/// are compared by their cross products, so no rounding takes part. When
/// fitting (`fill == false`) the binding side is the one that keeps the other
/// inside the box; when covering (`fill == true`) it is the one that lets the
/// other overflow it.
pub open spec fn binds_width(width: u32, height: u32, nwidth: u32, nheight: u32, fill: bool) -> bool {
    let ratio = width as int * nheight as int;
    let nratio = nwidth as int * height as int;
    if fill {
        nratio > ratio
    } else {
        nratio <= ratio
    }
}

/// The side of the source that divides when the free side is derived.
pub open spec fn divisor(width: u32, height: u32, nwidth: u32, nheight: u32, fill: bool) -> int {
    if binds_width(width, height, nwidth, nheight, fill) {
        width as int
    } else {
        height as int
    }
}

/// The free side before saturation: the binding side scaled by the source's
/// aspect ratio, rounded down, and never less than one.
pub open spec fn derived_side(width: u32, height: u32, nwidth: u32, nheight: u32, fill: bool) -> int {
    let scaled = if binds_width(width, height, nwidth, nheight, fill) {
        (height as int * nwidth as int) / (width as int)
    } else {
        (width as int * nheight as int) / (height as int)
    };
    if scaled < 1 {
        1
    } else {
        scaled
    }
}

/// Whether the free side would leave the range of `u32`.
pub open spec fn saturates(width: u32, height: u32, nwidth: u32, nheight: u32, fill: bool) -> bool {
    derived_side(width, height, nwidth, nheight, fill) > u32::MAX as int
}

/// The dimensions that preserve the aspect ratio of `width` x `height` in
/// the box `nwidth` x `nheight`. Where the free side would exceed
/// `u32::MAX` it becomes `u32::MAX` and the binding side shrinks in
/// proportion.
pub open spec fn scaled_dimensions(width: u32, height: u32, nwidth: u32, nheight: u32, fill: bool) -> (
    u32,
    u32,
) {
    let side = derived_side(width, height, nwidth, nheight, fill);
    if binds_width(width, height, nwidth, nheight, fill) {
        if side <= u32::MAX as int {
            (nwidth, side as u32)
        } else {
            (((nwidth as int * u32::MAX as int) / side) as u32, u32::MAX)
        }
    } else {
        if side <= u32::MAX as int {
            (side as u32, nheight)
        } else {
            (u32::MAX, ((nheight as int * u32::MAX as int) / side) as u32)
        }
    }
}

/// The box a request asks for: a side that the request leaves out is the
/// source's own.
pub open spec fn requested_box(
    source_w: u32,
    source_h: u32,
    requested_w: Option<u32>,
    requested_h: Option<u32>,
) -> (u32, u32) {
    (
        match requested_w {
            Some(w) => w,
            None => source_w,
        },
        match requested_h {
            Some(h) => h,
            None => source_h,
        },
    )
}

/// The output dimensions of a request.
pub open spec fn resolved(
    source_w: u32,
    source_h: u32,
    requested_w: Option<u32>,
    requested_h: Option<u32>,
    mode: ResizeMode,
) -> (u32, u32) {
    if requested_w is None && requested_h is None {
        (source_w, source_h)
    } else {
        let (w, h) = requested_box(source_w, source_h, requested_w, requested_h);
        match mode {
            ResizeMode::Contain => scaled_dimensions(source_w, source_h, w, h, false),
            ResizeMode::Crop => (w, h),
            ResizeMode::Stretch => (w, h),
        }
    }
}

/// Whether `resolve` has to divide by a side of the source.
pub open spec fn resolve_divides(
    requested_w: Option<u32>,
    requested_h: Option<u32>,
    mode: ResizeMode,
) -> bool {
    mode == ResizeMode::Contain && !(requested_w is None && requested_h is None)
}

proof fn lemma_div_bounds(a: int, b: int, d: int)
    by (nonlinear_arith)
    requires
        0 <= a,
        0 <= b,
        0 < d,
    ensures
        0 <= a / d <= a,
        a <= b * d ==> a / d <= b,
        a < b * d ==> a / d < b,
        a >= b * d ==> a / d >= b,
{
}

proof fn lemma_product_bound(a: u32, b: u32)
    by (nonlinear_arith)
    ensures
        0 <= a as int * b as int <= 0xFFFF_FFFE_0000_0001,
{
}

/// Calculates the width and height an image should be resized to.
/// This preserves the aspect ratio. With `fill` the result covers the box
/// `nwidth` x `nheight` and overflows it on one axis; without it the result
/// lies within the box, with room left on one axis.
pub fn resize_dimensions(width: u32, height: u32, nwidth: u32, nheight: u32, fill: bool) -> (dims: (
    u32,
    u32,
))
    requires
        divisor(width, height, nwidth, nheight, fill) != 0,
    ensures
        dims == scaled_dimensions(width, height, nwidth, nheight, fill),
{
    proof {
        lemma_product_bound(width, nheight);
        lemma_product_bound(nwidth, height);
        lemma_product_bound(height, nwidth);
        lemma_product_bound(nwidth, u32::MAX);
        lemma_product_bound(nheight, u32::MAX);
    }
    let ratio: u64 = (width as u64) * (nheight as u64);
    let nratio: u64 = (nwidth as u64) * (height as u64);
    let use_width: bool = if fill {
        nratio > ratio
    } else {
        nratio <= ratio
    };
    let scaled: u64 = if use_width {
        (height as u64) * (nwidth as u64) / (width as u64)
    } else {
        (width as u64) * (nheight as u64) / (height as u64)
    };
    let intermediate: u64 = if scaled < 1 {
        1
    } else {
        scaled
    };
    assert(intermediate as int == derived_side(width, height, nwidth, nheight, fill));
    if use_width {
        if intermediate <= u32::MAX as u64 {
            (nwidth, intermediate as u32)
        } else {
            proof {
                lemma_div_bounds(nwidth as int * u32::MAX as int, nwidth as int, intermediate as int);
            }
            (((nwidth as u64) * (u32::MAX as u64) / intermediate) as u32, u32::MAX)
        }
    } else if intermediate <= u32::MAX as u64 {
        (intermediate as u32, nheight)
    } else {
        proof {
            lemma_div_bounds(nheight as int * u32::MAX as int, nheight as int, intermediate as int);
        }
        (u32::MAX, ((nheight as u64) * (u32::MAX as u64) / intermediate) as u32)
    }
}

/// Computes the output dimensions of a request from the source dimensions,
/// the requested dimensions and the mode. With neither side requested the
/// source dimensions come back unchanged; `Stretch` and `Crop` give the
/// requested box; `Contain` gives the largest size of the source's aspect
/// ratio inside the box.
pub fn resolve(
    source_w: u32,
    source_h: u32,
    requested_w: Option<u32>,
    requested_h: Option<u32>,
    mode: ResizeMode,
) -> (dims: (u32, u32))
    requires
        resolve_divides(requested_w, requested_h, mode) ==> divisor(
            source_w,
            source_h,
            requested_box(source_w, source_h, requested_w, requested_h).0,
            requested_box(source_w, source_h, requested_w, requested_h).1,
            false,
        ) != 0,
    ensures
        dims == resolved(source_w, source_h, requested_w, requested_h, mode),
{
    if requested_w.is_none() && requested_h.is_none() {
        return (source_w, source_h);
    }
    let w: u32 = match requested_w {
        Some(w) => w,
        None => source_w,
    };
    let h: u32 = match requested_h {
        Some(h) => h,
        None => source_h,
    };
    match mode {
        ResizeMode::Contain => resize_dimensions(source_w, source_h, w, h, false),
        ResizeMode::Crop => (w, h),
        ResizeMode::Stretch => (w, h),
    }
}

/// The bound that the box sets for the free side.
pub open spec fn free_bound(width: u32, height: u32, nwidth: u32, nheight: u32, fill: bool) -> int {
    if binds_width(width, height, nwidth, nheight, fill) {
        nheight as int
    } else {
        nwidth as int
    }
}

/// Fitting never leaves the box: both sides stay within their bounds, the
/// binding side equals its bound, and nothing saturates. The free side's
/// bound has to admit the one pixel that the free side never goes below.
pub proof fn lemma_fit_within_box(width: u32, height: u32, nwidth: u32, nheight: u32)
    requires
        divisor(width, height, nwidth, nheight, false) != 0,
        free_bound(width, height, nwidth, nheight, false) >= 1,
    ensures
        !saturates(width, height, nwidth, nheight, false),
        scaled_dimensions(width, height, nwidth, nheight, false).0 <= nwidth,
        scaled_dimensions(width, height, nwidth, nheight, false).1 <= nheight,
        scaled_dimensions(width, height, nwidth, nheight, false).0 == nwidth || scaled_dimensions(
            width,
            height,
            nwidth,
            nheight,
            false,
        ).1 == nheight,
{
    if binds_width(width, height, nwidth, nheight, false) {
        lemma_div_bounds(height as int * nwidth as int, nheight as int, width as int);
        assert(height as int * nwidth as int == nwidth as int * height as int) by (nonlinear_arith);
        assert(nheight as int * width as int == width as int * nheight as int) by (nonlinear_arith);
    } else {
        lemma_div_bounds(width as int * nheight as int, nwidth as int, height as int);
        assert(nwidth as int * height as int == nwidth as int * height as int);
    }
}

/// Covering never falls short of the box: as long as nothing saturates both
/// sides reach their bounds and the binding side equals its bound.
pub proof fn lemma_cover_reaches_box(width: u32, height: u32, nwidth: u32, nheight: u32)
    requires
        divisor(width, height, nwidth, nheight, true) != 0,
        !saturates(width, height, nwidth, nheight, true),
    ensures
        scaled_dimensions(width, height, nwidth, nheight, true).0 >= nwidth,
        scaled_dimensions(width, height, nwidth, nheight, true).1 >= nheight,
        scaled_dimensions(width, height, nwidth, nheight, true).0 == nwidth || scaled_dimensions(
            width,
            height,
            nwidth,
            nheight,
            true,
        ).1 == nheight,
{
    if binds_width(width, height, nwidth, nheight, true) {
        lemma_div_bounds(height as int * nwidth as int, nheight as int, width as int);
        assert(height as int * nwidth as int == nwidth as int * height as int) by (nonlinear_arith);
        assert(nheight as int * width as int == width as int * nheight as int) by (nonlinear_arith);
    } else {
        lemma_div_bounds(width as int * nheight as int, nwidth as int, height as int);
    }
}

/// A free side that would leave the range of `u32` is clamped to `u32::MAX`
/// and the binding side shrinks with it, so no side ever wraps around; a
/// free side inside the range is kept as derived, beside the requested
/// binding side.
pub proof fn lemma_saturation(width: u32, height: u32, nwidth: u32, nheight: u32, fill: bool)
    requires
        divisor(width, height, nwidth, nheight, fill) != 0,
    ensures
        derived_side(width, height, nwidth, nheight, fill) >= 1,
        saturates(width, height, nwidth, nheight, fill) ==> fill,
        saturates(width, height, nwidth, nheight, fill) && binds_width(
            width,
            height,
            nwidth,
            nheight,
            fill,
        ) ==> scaled_dimensions(width, height, nwidth, nheight, fill).1 == u32::MAX
            && scaled_dimensions(width, height, nwidth, nheight, fill).0 <= nwidth
            && scaled_dimensions(width, height, nwidth, nheight, fill).0 as int == (nwidth as int
            * u32::MAX as int) / derived_side(width, height, nwidth, nheight, fill),
        saturates(width, height, nwidth, nheight, fill) && !binds_width(
            width,
            height,
            nwidth,
            nheight,
            fill,
        ) ==> scaled_dimensions(width, height, nwidth, nheight, fill).0 == u32::MAX
            && scaled_dimensions(width, height, nwidth, nheight, fill).1 <= nheight
            && scaled_dimensions(width, height, nwidth, nheight, fill).1 as int == (nheight as int
            * u32::MAX as int) / derived_side(width, height, nwidth, nheight, fill),
        !saturates(width, height, nwidth, nheight, fill) && binds_width(
            width,
            height,
            nwidth,
            nheight,
            fill,
        ) ==> scaled_dimensions(width, height, nwidth, nheight, fill).0 == nwidth
            && scaled_dimensions(width, height, nwidth, nheight, fill).1 as int == derived_side(
            width,
            height,
            nwidth,
            nheight,
            fill,
        ),
        !saturates(width, height, nwidth, nheight, fill) && !binds_width(
            width,
            height,
            nwidth,
            nheight,
            fill,
        ) ==> scaled_dimensions(width, height, nwidth, nheight, fill).1 == nheight
            && scaled_dimensions(width, height, nwidth, nheight, fill).0 as int == derived_side(
            width,
            height,
            nwidth,
            nheight,
            fill,
        ),
{
    let side = derived_side(width, height, nwidth, nheight, fill);
    lemma_product_bound(nwidth, u32::MAX);
    lemma_product_bound(nheight, u32::MAX);
    if saturates(width, height, nwidth, nheight, fill) {
        lemma_div_bounds(nwidth as int * u32::MAX as int, nwidth as int, side);
        lemma_div_bounds(nheight as int * u32::MAX as int, nheight as int, side);
        assert(nwidth as int * u32::MAX as int <= nwidth as int * side) by (nonlinear_arith)
            requires
                u32::MAX as int <= side,
                0 <= nwidth as int,
        ;
        assert(nheight as int * u32::MAX as int <= nheight as int * side) by (nonlinear_arith)
            requires
                u32::MAX as int <= side,
                0 <= nheight as int,
        ;
        if !fill {
            if binds_width(width, height, nwidth, nheight, fill) {
                lemma_div_bounds(height as int * nwidth as int, nheight as int, width as int);
                assert(height as int * nwidth as int == nwidth as int * height as int)
                    by (nonlinear_arith);
                assert(nheight as int * width as int == width as int * nheight as int)
                    by (nonlinear_arith);
            } else {
                lemma_div_bounds(width as int * nheight as int, nwidth as int, height as int);
            }
        }
    }
}

/// A request that names neither side resolves to the source dimensions in
/// every mode, and so does a box that is the source's own size.
pub proof fn lemma_default_passthrough(source_w: u32, source_h: u32, mode: ResizeMode, fill: bool)
    ensures
        resolved(source_w, source_h, None, None, mode) == (source_w, source_h),
        requested_box(source_w, source_h, None, None) == (source_w, source_h),
        source_w >= 1 && source_h >= 1 ==> resolved(
            source_w,
            source_h,
            Some(source_w),
            Some(source_h),
            mode,
        ) == (source_w, source_h),
        source_w >= 1 && source_h >= 1 ==> scaled_dimensions(
            source_w,
            source_h,
            source_w,
            source_h,
            fill,
        ) == (source_w, source_h),
{
    if source_w >= 1 && source_h >= 1 {
        assert(source_w as int * source_h as int == source_h as int * source_w as int)
            by (nonlinear_arith);
        assert((source_h as int * source_w as int) / (source_w as int) == source_h as int)
            by (nonlinear_arith)
            requires
                source_w >= 1,
        ;
        assert((source_w as int * source_h as int) / (source_h as int) == source_w as int)
            by (nonlinear_arith)
            requires
                source_h >= 1,
        ;
    }
}

/// `Stretch` and `Crop` resolve to the requested dimensions, whatever the
/// source's aspect ratio is.
pub proof fn lemma_exact_modes(source_w: u32, source_h: u32, w: u32, h: u32)
    ensures
        resolved(source_w, source_h, Some(w), Some(h), ResizeMode::Stretch) == (w, h),
        resolved(source_w, source_h, Some(w), Some(h), ResizeMode::Crop) == (w, h),
{
}

/// A source and a box of at least one pixel resolve to at least one pixel,
/// and `Contain` resolves to dimensions inside the box that touch it on one
/// axis.
pub proof fn lemma_resolved_in_box(source_w: u32, source_h: u32, w: u32, h: u32, mode: ResizeMode)
    requires
        source_w >= 1,
        source_h >= 1,
        w >= 1,
        h >= 1,
    ensures
        resolved(source_w, source_h, Some(w), Some(h), mode).0 >= 1,
        resolved(source_w, source_h, Some(w), Some(h), mode).1 >= 1,
        resolved(source_w, source_h, Some(w), Some(h), mode).0 <= w,
        resolved(source_w, source_h, Some(w), Some(h), mode).1 <= h,
        resolved(source_w, source_h, Some(w), Some(h), mode).0 == w || resolved(
            source_w,
            source_h,
            Some(w),
            Some(h),
            mode,
        ).1 == h,
{
    lemma_fit_within_box(source_w, source_h, w, h);
    lemma_saturation(source_w, source_h, w, h, false);
}

/// Resolving a request and resolving the box that the request asks for
/// come to the same dimensions, for a source of at least one pixel.
pub proof fn lemma_box_resolves(
    source_w: u32,
    source_h: u32,
    requested_w: Option<u32>,
    requested_h: Option<u32>,
    mode: ResizeMode,
)
    requires
        source_w >= 1,
        source_h >= 1,
    ensures
        resolved(
            source_w,
            source_h,
            Some(requested_box(source_w, source_h, requested_w, requested_h).0),
            Some(requested_box(source_w, source_h, requested_w, requested_h).1),
            mode,
        ) == resolved(source_w, source_h, requested_w, requested_h, mode),
{
    lemma_default_passthrough(source_w, source_h, mode, false);
}

} // verus!
