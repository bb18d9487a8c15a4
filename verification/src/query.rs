//! The request that one run of the pipeline serves.

use vstd::prelude::*;
use crate::dimensions::requested_box;
use crate::encoding::Encoding;
use crate::mode::ResizeMode;

verus! {

/// A request: where the media came from, the size asked for, the output
/// format and how to fit the media into the size.
#[derive(Clone, Debug)]
pub struct Query {
    /// Locator of the source image. The pipeline works on bytes that were
    /// fetched already and never reads it.
    pub source: String,
    /// The width of the processed image.
    pub width: Option<u32>,
    /// The height of the processed image.
    pub height: Option<u32>,
    /// Output format of the image.
    pub encoding: Encoding,
    /// How to fit the media if the new aspect ratio doesn't match.
    pub mode: Option<ResizeMode>,
}

impl Query {
    /// The mode of the request; `Crop` where it names none.
    pub open spec fn resize_mode(self) -> ResizeMode {
        ResizeMode::or_default(self.mode)
    }

    /// The box that the request asks for, for a source of the given size.
    pub open spec fn target_box(self, source_w: u32, source_h: u32) -> (u32, u32) {
        requested_box(source_w, source_h, self.width, self.height)
    }

    /// The box that the request asks for: a side that it leaves out is the
    /// source's own.
    pub fn box_for(&self, source_w: u32, source_h: u32) -> (dims: (u32, u32))
        ensures
            dims == self.target_box(source_w, source_h),
    {
        let w: u32 = match self.width {
            Some(w) => w,
            None => source_w,
        };
        let h: u32 = match self.height {
            Some(h) => h,
            None => source_h,
        };
        (w, h)
    }
}

} // verus!
