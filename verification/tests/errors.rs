use pxcmprs_core::encoding::Encoding;
use pxcmprs_core::error::{
    CodecFailure, DecodeError, EncodeError, ErrorKind, PipelineError, ResampleError,
};
use pxcmprs_core::handler::handle_image;
use pxcmprs_core::mode::ResizeMode;
use pxcmprs_core::query::Query;

fn image_error() -> image::ImageError {
    image::load_from_memory(&[0u8; 4]).err().unwrap()
}

#[test]
fn every_error_tells_its_kind() {
    assert_eq!(PipelineError::Unknown.error_kind(), ErrorKind::Unknown);
    assert_eq!(
        PipelineError::Decode(DecodeError::Still(image_error())).error_kind(),
        ErrorKind::Decode
    );
    assert_eq!(
        PipelineError::Resample(ResampleError::ZeroTarget).error_kind(),
        ErrorKind::ZeroTarget
    );
    assert_eq!(PipelineError::Resample(ResampleError::Geometry).error_kind(), ErrorKind::Geometry);
    assert_eq!(PipelineError::Resample(ResampleError::TooLarge).error_kind(), ErrorKind::TooLarge);
    assert_eq!(
        PipelineError::Encode(EncodeError::Unsupported).error_kind(),
        ErrorKind::Unsupported
    );
    assert_eq!(
        PipelineError::Encode(EncodeError::Underlying(CodecFailure::Still(image_error())))
            .error_kind(),
        ErrorKind::Underlying
    );
}

#[test]
fn the_librarys_own_errors_have_fixed_messages() {
    assert_eq!(PipelineError::Unknown.message(), "An unknown error occurred.");
    assert_eq!(
        EncodeError::Unsupported.message(),
        "The media cannot be encoded as it is not supported."
    );
    assert_eq!(
        PipelineError::Encode(EncodeError::Unsupported).message(),
        "The media cannot be encoded as it is not supported."
    );
    assert_eq!(ResampleError::ZeroTarget.message(), "The target has no pixels.");
    assert_eq!(
        ResampleError::Geometry.message(),
        "The frame does not hold the pixels that it declares."
    );
    assert_eq!(ResampleError::TooLarge.message(), "The media is too large to be resampled.");
    assert_eq!(
        PipelineError::Resample(ResampleError::TooLarge).message(),
        ResampleError::TooLarge.message()
    );
}

#[test]
fn a_codecs_error_speaks_for_itself() {
    let text = image_error().to_string();
    assert!(!text.is_empty());
    assert_eq!(DecodeError::Still(image_error()).message(), text);
    assert_eq!(PipelineError::Decode(DecodeError::Still(image_error())).message(), text);
    assert_eq!(EncodeError::Underlying(CodecFailure::Still(image_error())).message(), text);
    let broken = gif::DecodeOptions::new().read_info(&b"GIF89a"[..]).err().unwrap();
    let text = broken.to_string();
    assert!(!text.is_empty());
    assert_eq!(DecodeError::Sequence(broken).message(), text);
    let full = || std::io::Error::new(std::io::ErrorKind::Other, "the disk is full");
    let text = gif::EncodingError::from(full()).to_string();
    assert!(text.contains("the disk is full"));
    assert_eq!(CodecFailure::Sequence(gif::EncodingError::from(full())).message(), text);
    assert_eq!(
        PipelineError::Encode(EncodeError::Underlying(CodecFailure::Sequence(
            gif::EncodingError::from(full())
        )))
        .message(),
        text
    );
}

#[test]
fn errors_convert_upwards() {
    assert!(matches!(
        EncodeError::from(image_error()),
        EncodeError::Underlying(CodecFailure::Still(_))
    ));
    assert!(matches!(
        PipelineError::from(image_error()),
        PipelineError::Decode(DecodeError::Still(_))
    ));
    assert!(matches!(
        PipelineError::from(DecodeError::Still(image_error())),
        PipelineError::Decode(DecodeError::Still(_))
    ));
    assert!(matches!(
        PipelineError::from(ResampleError::Geometry),
        PipelineError::Resample(ResampleError::Geometry)
    ));
    assert!(matches!(
        PipelineError::from(EncodeError::Unsupported),
        PipelineError::Encode(EncodeError::Unsupported)
    ));
}

#[test]
fn an_encoder_failure_reaches_the_caller() {
    let mut source = Vec::new();
    image::DynamicImage::ImageLuma8(image::GrayImage::from_pixel(2, 2, image::Luma([7])))
        .write_to(&mut source, image::ImageOutputFormat::Png)
        .unwrap();
    // A JPEG has no room for a side beyond 65535 pixels.
    let query = Query {
        source: String::new(),
        width: Some(65_536),
        height: Some(1),
        encoding: Encoding::Jpeg,
        mode: Some(ResizeMode::Stretch),
    };
    let failure = handle_image(source, query).err().unwrap();
    assert_eq!(failure.error_kind(), ErrorKind::Underlying);
    assert!(matches!(
        failure,
        PipelineError::Encode(EncodeError::Underlying(CodecFailure::Still(_)))
    ));
    assert!(!failure.message().is_empty());
}
