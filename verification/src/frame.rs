//! Decoded frames: a rectangle of samples and, for frames of a sequence,
//! their timing and placement.

use vstd::prelude::*;

verus! {

/// How the samples of one pixel are laid out. Every sample is one byte.
#[derive(Copy, Clone, Debug, PartialEq, Eq, Structural)]
pub enum PixelLayout {
    /// One sample: luminance.
    L8,
    /// Two samples: luminance and alpha.
    La8,
    /// Three samples: red, green and blue.
    Rgb8,
    /// Four samples: red, green, blue and alpha.
    Rgba8,
}

impl PixelLayout {
    /// The number of samples, and so of bytes, that one pixel takes.
    pub open spec fn channels(self) -> int {
        match self {
            PixelLayout::L8 => 1,
            PixelLayout::La8 => 2,
            PixelLayout::Rgb8 => 3,
            PixelLayout::Rgba8 => 4,
        }
    }

    /// The number of samples, and so of bytes, that one pixel takes.
    pub fn channel_count(self) -> (n: u8)
        ensures
            n == self.channels(),
            1 <= n <= 4,
    {
        match self {
            PixelLayout::L8 => 1,
            PixelLayout::La8 => 2,
            PixelLayout::Rgb8 => 3,
            PixelLayout::Rgba8 => 4,
        }
    }
}

/// A decoded frame: `width` x `height` pixels in row-major order, the
/// samples of each pixel side by side as `layout` says.
#[derive(Clone, Debug, PartialEq, Eq)]
pub struct DecodedFrame {
    /// Width in pixels.
    pub width: u32,
    /// Height in pixels.
    pub height: u32,
    /// Layout of the samples of one pixel.
    pub layout: PixelLayout,
    /// The samples, row by row.
    pub samples: Vec<u8>,
    /// How long the frame is shown, in units of 10 ms; zero for a still image.
    pub delay: u16,
    /// Offset of the frame from the left border of the canvas.
    pub left: u16,
    /// Offset of the frame from the top border of the canvas.
    pub top: u16,
}

/// The mathematical value of a frame.
pub struct FrameView {
    /// Width in pixels.
    pub width: u32,
    /// Height in pixels.
    pub height: u32,
    /// Layout of the samples of one pixel.
    pub layout: PixelLayout,
    /// The samples, row by row.
    pub samples: Seq<u8>,
    /// How long the frame is shown, in units of 10 ms.
    pub delay: u16,
    /// Offset of the frame from the left border of the canvas.
    pub left: u16,
    /// Offset of the frame from the top border of the canvas.
    pub top: u16,
}

impl View for DecodedFrame {
    type V = FrameView;

    open spec fn view(&self) -> FrameView {
        FrameView {
            width: self.width,
            height: self.height,
            layout: self.layout,
            samples: self.samples@,
            delay: self.delay,
            left: self.left,
            top: self.top,
        }
    }
}

/// The number of samples that a rectangle of pixels takes.
pub open spec fn sample_count(width: u32, height: u32, layout: PixelLayout) -> int {
    width as int * height as int * layout.channels()
}

impl FrameView {
    /// A frame's geometry is valid when it has at least one pixel and holds
    /// exactly the samples that its width, height and layout declare.
    pub open spec fn valid(self) -> bool {
        &&& self.width >= 1
        &&& self.height >= 1
        &&& self.samples.len() == sample_count(self.width, self.height, self.layout)
    }
}

/// The number of samples of a rectangle fits in 66 bits, and a rectangle
/// with pixels has samples.
pub proof fn lemma_sample_count_bound(width: u32, height: u32, layout: PixelLayout)
    by (nonlinear_arith)
    requires
        1 <= layout.channels() <= 4,
    ensures
        0 <= width as int * height as int <= 0xFFFF_FFFE_0000_0001,
        0 <= sample_count(width, height, layout) <= 4 * 0xFFFF_FFFE_0000_0001,
        width >= 1 && height >= 1 ==> sample_count(width, height, layout) >= 1,
{
}

/// Computes the number of samples that a rectangle of pixels takes.
pub fn count_samples(width: u32, height: u32, layout: PixelLayout) -> (n: u128)
    ensures
        n == sample_count(width, height, layout),
{
    proof {
        lemma_sample_count_bound(width, height, layout);
    }
    let pixels: u128 = (width as u128) * (height as u128);
    pixels * (layout.channel_count() as u128)
}

impl DecodedFrame {
    /// Whether the frame has at least one pixel and its buffer holds
    /// exactly the samples that its width, height and layout declare.
    pub fn has_valid_geometry(&self) -> (valid: bool)
        ensures
            valid == self@.valid(),
    {
        self.width >= 1 && self.height >= 1 && self.samples.len() as u128 == count_samples(
            self.width,
            self.height,
            self.layout,
        )
    }
}

} // verus!
