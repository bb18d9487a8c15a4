//! How a frame is fitted into the requested box.

use vstd::prelude::*;

verus! {

/// Options for how the media is fitted when the new resolution has a
/// different aspect ratio.
#[derive(Copy, Clone, Debug, PartialEq, Eq, Structural)]
pub enum ResizeMode {
    /// The image is scaled to the largest size that fits within the new
    /// resolution; one axis may end up smaller than requested.
    Contain,
    /// The image is scaled until it covers the new resolution and the
    /// overflow is cut off. Never stretches.
    Crop,
    /// The image is stretched to the exact resolution.
    Stretch,
}

impl Default for ResizeMode {
    fn default() -> (mode: ResizeMode)
        ensures
            mode == ResizeMode::Crop,
    {
        ResizeMode::Crop
    }
}

impl ResizeMode {
    /// The mode that applies when a request names none.
    pub open spec fn or_default(requested: Option<ResizeMode>) -> ResizeMode {
        match requested {
            Some(mode) => mode,
            None => ResizeMode::Crop,
        }
    }

    /// Picks the requested mode, or `Crop` when none was requested.
    pub fn pick(requested: Option<ResizeMode>) -> (mode: ResizeMode)
        ensures
            mode == ResizeMode::or_default(requested),
    {
        match requested {
            Some(mode) => mode,
            None => ResizeMode::Crop,
        }
    }
}

} // verus!
