//! Errors of the pipeline. Nothing is retried and nothing is swallowed: what
//! a step reports reaches the caller unchanged.

use vstd::prelude::*;

verus! {

/// The error type of the image codecs. Opaque here: it is carried to the
/// caller as the cause of a failure.
#[verifier::external_type_specification]
#[verifier::external_body]
pub struct ExImageError(image::ImageError);

/// The error type of the sequence decoder. Opaque here.
#[verifier::external_type_specification]
#[verifier::external_body]
pub struct ExDecodingError(gif::DecodingError);

/// The error type of the sequence encoder. Opaque here.
#[verifier::external_type_specification]
#[verifier::external_body]
pub struct ExEncodingError(gif::EncodingError);

/// Why a frame cannot be resampled.
#[derive(Copy, Clone, Debug, PartialEq, Eq, Structural)]
pub enum ResampleError {
    /// The target has no pixels: its width or its height is zero.
    ZeroTarget,
    /// The frame's geometry is inconsistent: it has no pixels, or its
    /// buffer does not hold the samples that its width, height and layout
    /// declare.
    Geometry,
    /// The source, the target or a buffer in between is larger than the
    /// resampling arithmetic can address.
    TooLarge,
}

/// The source bytes are no valid image or sequence container; the cause is
/// the decoder's own report.
#[derive(Debug)]
pub enum DecodeError {
    /// Reported while a still image was decoded.
    Still(image::ImageError),
    /// Reported while a frame sequence was decoded.
    Sequence(gif::DecodingError),
}

/// What a codec reported when it failed to encode.
#[derive(Debug)]
pub enum CodecFailure {
    /// Reported by a still-image encoder.
    Still(image::ImageError),
    /// Reported by the sequence encoder.
    Sequence(gif::EncodingError),
}

/// Errors related to encoding.
#[derive(Debug)]
pub enum EncodeError {
    /// The media cannot be encoded as the encoding cannot represent it.
    Unsupported,
    /// The codec failed; its report is kept as the cause.
    Underlying(CodecFailure),
}

/// Error returned by the pipeline.
#[derive(Debug)]
pub enum PipelineError {
    /// A frame of a sequence could not be laid out on the canvas.
    Unknown,
    /// The source could not be decoded.
    Decode(DecodeError),
    /// A frame could not be resampled.
    Resample(ResampleError),
    /// The result could not be encoded.
    Encode(EncodeError),
}

/// The kind of a pipeline error, without its cause.
#[derive(Copy, Clone, Debug, PartialEq, Eq, Structural)]
pub enum ErrorKind {
    /// A frame of a sequence could not be laid out on the canvas.
    Unknown,
    /// The source could not be decoded.
    Decode,
    /// The target of resampling has no pixels.
    ZeroTarget,
    /// The geometry of a frame is inconsistent.
    Geometry,
    /// A size is beyond what resampling can address.
    TooLarge,
    /// The encoding cannot represent the media.
    Unsupported,
    /// A codec failed to encode.
    Underlying,
}

impl ResampleError {
    /// The kind under which the pipeline reports the error.
    pub open spec fn kind(self) -> ErrorKind {
        match self {
            ResampleError::ZeroTarget => ErrorKind::ZeroTarget,
            ResampleError::Geometry => ErrorKind::Geometry,
            ResampleError::TooLarge => ErrorKind::TooLarge,
        }
    }
}

impl EncodeError {
    /// The kind under which the pipeline reports the error.
    pub open spec fn kind(self) -> ErrorKind {
        match self {
            EncodeError::Unsupported => ErrorKind::Unsupported,
            EncodeError::Underlying(_) => ErrorKind::Underlying,
        }
    }
}

impl PipelineError {
    /// The kind of the error.
    pub open spec fn kind(self) -> ErrorKind {
        match self {
            PipelineError::Unknown => ErrorKind::Unknown,
            PipelineError::Decode(_) => ErrorKind::Decode,
            PipelineError::Resample(e) => e.kind(),
            PipelineError::Encode(e) => e.kind(),
        }
    }

    /// Tells the kind of the error.
    pub fn error_kind(&self) -> (kind: ErrorKind)
        ensures
            kind == self.kind(),
    {
        match self {
            PipelineError::Unknown => ErrorKind::Unknown,
            PipelineError::Decode(_) => ErrorKind::Decode,
            PipelineError::Resample(ResampleError::ZeroTarget) => ErrorKind::ZeroTarget,
            PipelineError::Resample(ResampleError::Geometry) => ErrorKind::Geometry,
            PipelineError::Resample(ResampleError::TooLarge) => ErrorKind::TooLarge,
            PipelineError::Encode(EncodeError::Unsupported) => ErrorKind::Unsupported,
            PipelineError::Encode(EncodeError::Underlying(_)) => ErrorKind::Underlying,
        }
    }
}

impl ResampleError {
    /// The text of the message for a target without pixels.
    pub open spec fn zero_target_text() -> Seq<char> {
        "The target has no pixels."@
    }

    /// The text of the message for a frame of inconsistent geometry.
    pub open spec fn geometry_text() -> Seq<char> {
        "The frame does not hold the pixels that it declares."@
    }

    /// The text of the message for sizes beyond the limits.
    pub open spec fn too_large_text() -> Seq<char> {
        "The media is too large to be resampled."@
    }

    /// The text of the error's message.
    pub open spec fn text(self) -> Seq<char> {
        match self {
            ResampleError::ZeroTarget => Self::zero_target_text(),
            ResampleError::Geometry => Self::geometry_text(),
            ResampleError::TooLarge => Self::too_large_text(),
        }
    }

    /// A message for the user.
    pub fn message(&self) -> (text: String)
        ensures
            text@ == self.text(),
    {
        match self {
            ResampleError::ZeroTarget => "The target has no pixels.".to_owned(),
            ResampleError::Geometry => "The frame does not hold the pixels that it declares.".to_owned(),
            ResampleError::TooLarge => "The media is too large to be resampled.".to_owned(),
        }
    }
}

impl DecodeError {
    /// A message for the user: the decoder's own.
    pub fn message(&self) -> (text: String)
        ensures
            self.displays_as(text),
    {
        match self {
            DecodeError::Still(e) => e.to_string(),
            DecodeError::Sequence(e) => e.to_string(),
        }
    }
}

impl CodecFailure {
    /// A message for the user: the codec's own.
    pub fn message(&self) -> (text: String)
        ensures
            self.displays_as(text),
    {
        match self {
            CodecFailure::Still(e) => e.to_string(),
            CodecFailure::Sequence(e) => e.to_string(),
        }
    }
}

impl DecodeError {
    /// Whether `text` is the message of the error: the text that the
    /// decoder's own report displays as.
    pub open spec fn displays_as(self, text: String) -> bool {
        match self {
            DecodeError::Still(e) => vstd::string::to_string_from_display_ensures::<
                image::ImageError,
            >(&e, text),
            DecodeError::Sequence(e) => vstd::string::to_string_from_display_ensures::<
                gif::DecodingError,
            >(&e, text),
        }
    }
}

impl CodecFailure {
    /// Whether `text` is the message of the failure: the text that the
    /// codec's own report displays as.
    pub open spec fn displays_as(self, text: String) -> bool {
        match self {
            CodecFailure::Still(e) => vstd::string::to_string_from_display_ensures::<
                image::ImageError,
            >(&e, text),
            CodecFailure::Sequence(e) => vstd::string::to_string_from_display_ensures::<
                gif::EncodingError,
            >(&e, text),
        }
    }
}

impl EncodeError {
    /// The text of the message for media that the encoding cannot represent.
    pub open spec fn unsupported_text() -> Seq<char> {
        "The media cannot be encoded as it is not supported."@
    }

    /// A message for the user. Where a codec failed it is the codec's own.
    pub fn message(&self) -> (text: String)
        ensures
            self is Unsupported ==> text@ == Self::unsupported_text(),
            self is Underlying ==> self->Underlying_0.displays_as(text),
    {
        match self {
            EncodeError::Unsupported => "The media cannot be encoded as it is not supported.".to_owned(),
            EncodeError::Underlying(cause) => cause.message(),
        }
    }
}

impl PipelineError {
    /// The text of the message for an unknown error.
    pub open spec fn unknown_text() -> Seq<char> {
        "An unknown error occurred."@
    }

    /// A message for the user. Where a codec failed it is the codec's own.
    pub fn message(&self) -> (text: String)
        ensures
            self is Unknown ==> text@ == Self::unknown_text(),
            self is Decode ==> self->Decode_0.displays_as(text),
            self is Resample ==> text@ == self->Resample_0.text(),
            self is Encode && self->Encode_0 is Unsupported ==> text@
                == EncodeError::unsupported_text(),
            self is Encode && self->Encode_0 is Underlying ==> self->Encode_0->Underlying_0.displays_as(
                text,
            ),
    {
        match self {
            PipelineError::Unknown => "An unknown error occurred.".to_owned(),
            PipelineError::Decode(e) => e.message(),
            PipelineError::Resample(e) => e.message(),
            PipelineError::Encode(e) => e.message(),
        }
    }
}

impl From<image::ImageError> for EncodeError {
    fn from(err: image::ImageError) -> (e: EncodeError) {
        EncodeError::Underlying(CodecFailure::Still(err))
    }
}

impl vstd::std_specs::convert::FromSpecImpl<image::ImageError> for EncodeError {
    open spec fn obeys_from_spec() -> bool {
        true
    }

    open spec fn from_spec(err: image::ImageError) -> EncodeError {
        EncodeError::Underlying(CodecFailure::Still(err))
    }
}

impl From<image::ImageError> for PipelineError {
    fn from(err: image::ImageError) -> (e: PipelineError) {
        PipelineError::Decode(DecodeError::Still(err))
    }
}

impl vstd::std_specs::convert::FromSpecImpl<image::ImageError> for PipelineError {
    open spec fn obeys_from_spec() -> bool {
        true
    }

    open spec fn from_spec(err: image::ImageError) -> PipelineError {
        PipelineError::Decode(DecodeError::Still(err))
    }
}

impl From<DecodeError> for PipelineError {
    fn from(err: DecodeError) -> (e: PipelineError) {
        PipelineError::Decode(err)
    }
}

impl vstd::std_specs::convert::FromSpecImpl<DecodeError> for PipelineError {
    open spec fn obeys_from_spec() -> bool {
        true
    }

    open spec fn from_spec(err: DecodeError) -> PipelineError {
        PipelineError::Decode(err)
    }
}

impl From<ResampleError> for PipelineError {
    fn from(err: ResampleError) -> (e: PipelineError) {
        PipelineError::Resample(err)
    }
}

impl vstd::std_specs::convert::FromSpecImpl<ResampleError> for PipelineError {
    open spec fn obeys_from_spec() -> bool {
        true
    }

    open spec fn from_spec(err: ResampleError) -> PipelineError {
        PipelineError::Resample(err)
    }
}

impl From<EncodeError> for PipelineError {
    fn from(err: EncodeError) -> (e: PipelineError) {
        PipelineError::Encode(err)
    }
}

impl vstd::std_specs::convert::FromSpecImpl<EncodeError> for PipelineError {
    open spec fn obeys_from_spec() -> bool {
        true
    }

    open spec fn from_spec(err: EncodeError) -> PipelineError {
        PipelineError::Encode(err)
    }
}

} // verus!
