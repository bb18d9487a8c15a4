//! The output container of a request.

use vstd::prelude::*;

verus! {

/// Output format of the processed image.
#[derive(Copy, Clone, Debug, PartialEq, Eq, Structural)]
pub enum Encoding {
    /// Output the media as JPEG.
    Jpeg,
    /// Output the media as a PNG file.
    Png,
    /// Encode the media with WebP.
    WebP,
    /// Encode the media as a GIF.
    Gif,
}

impl Default for Encoding {
    fn default() -> (encoding: Encoding)
        ensures
            encoding == Encoding::Jpeg,
    {
        Encoding::Jpeg
    }
}

impl Encoding {
    /// The text of the MIME type that belongs to the encoding.
    pub open spec fn mime_text(self) -> Seq<char> {
        match self {
            Encoding::Jpeg => "image/jpeg"@,
            Encoding::Png => "image/png"@,
            Encoding::WebP => "image/webp"@,
            Encoding::Gif => "image/gif"@,
        }
    }

    /// Whether the encoding is a container of timed frames.
    pub open spec fn holds_frames(self) -> bool {
        self == Encoding::Gif
    }

    /// Get the MIME type, as text.
    pub fn mime_type(self) -> (mime: &'static str)
        ensures
            mime@ == self.mime_text(),
    {
        match self {
            Encoding::Jpeg => "image/jpeg",
            Encoding::Png => "image/png",
            Encoding::WebP => "image/webp",
            Encoding::Gif => "image/gif",
        }
    }

    /// Returns `true` if the encoding is considered a video, for example a
    /// GIF (even though GIFs are not necessarily animated).
    pub fn is_video(self) -> (video: bool)
        ensures
            video == self.holds_frames(),
    {
        match self {
            Encoding::Gif => true,
            _ => false,
        }
    }
}

} // verus!
