use pxcmprs_core::encoder::encode_image;
use pxcmprs_core::encoding::Encoding;
use pxcmprs_core::error::{EncodeError, ResampleError};
use pxcmprs_core::frame::{count_samples, DecodedFrame, PixelLayout};
use pxcmprs_core::mode::ResizeMode;
use pxcmprs_core::transform::{check_resample, check_sizes, resize_dynimage};

fn gradient(width: u32, height: u32, layout: PixelLayout) -> DecodedFrame {
    let channels = u32::from(layout.channel_count());
    let mut samples = Vec::new();
    for y in 0..height {
        for x in 0..width {
            for c in 0..channels {
                samples.push(((x * 7 + y * 13 + c * 50) % 256) as u8);
            }
        }
    }
    DecodedFrame { width, height, layout, samples, delay: 0, left: 0, top: 0 }
}

fn flat(width: u32, height: u32, layout: PixelLayout, value: u8) -> DecodedFrame {
    let len = (width * height * u32::from(layout.channel_count())) as usize;
    DecodedFrame { width, height, layout, samples: vec![value; len], delay: 0, left: 0, top: 0 }
}

#[test]
fn layouts_count_their_channels() {
    assert_eq!(PixelLayout::L8.channel_count(), 1);
    assert_eq!(PixelLayout::La8.channel_count(), 2);
    assert_eq!(PixelLayout::Rgb8.channel_count(), 3);
    assert_eq!(PixelLayout::Rgba8.channel_count(), 4);
}

#[test]
fn samples_are_counted_without_wrapping() {
    assert_eq!(count_samples(100, 50, PixelLayout::Rgb8), 15_000);
    assert_eq!(count_samples(0, 50, PixelLayout::Rgba8), 0);
    assert_eq!(
        count_samples(u32::MAX, u32::MAX, PixelLayout::Rgba8),
        4 * u128::from(u32::MAX) * u128::from(u32::MAX)
    );
}

#[test]
fn geometry_is_valid_when_the_buffer_matches() {
    assert!(gradient(4, 3, PixelLayout::Rgba8).has_valid_geometry());
    let mut short = gradient(4, 3, PixelLayout::Rgba8);
    short.samples.pop();
    assert!(!short.has_valid_geometry());
    let mut long = gradient(4, 3, PixelLayout::Rgba8);
    long.samples.push(0);
    assert!(!long.has_valid_geometry());
    let empty = DecodedFrame {
        width: 0,
        height: 3,
        layout: PixelLayout::L8,
        samples: Vec::new(),
        delay: 0,
        left: 0,
        top: 0,
    };
    assert!(!empty.has_valid_geometry());
}

#[test]
fn contain_fits_the_frame_into_the_box() {
    let frame = gradient(100, 50, PixelLayout::Rgb8);
    let out = resize_dynimage(&frame, &ResizeMode::Contain, 50, 50).unwrap();
    assert_eq!((out.width, out.height), (50, 25));
    assert_eq!(out.layout, PixelLayout::Rgb8);
    assert_eq!(out.samples.len(), 50 * 25 * 3);
    assert!(out.has_valid_geometry());
}

#[test]
fn contain_touches_the_box_on_one_axis() {
    let frame = gradient(3, 2, PixelLayout::Rgba8);
    let out = resize_dynimage(&frame, &ResizeMode::Contain, 2, 2).unwrap();
    assert_eq!((out.width, out.height), (2, 1));
    let tall = gradient(20, 60, PixelLayout::L8);
    let out = resize_dynimage(&tall, &ResizeMode::Contain, 30, 30).unwrap();
    assert_eq!((out.width, out.height), (10, 30));
}

#[test]
fn crop_gives_the_exact_box() {
    let frame = gradient(100, 50, PixelLayout::Rgb8);
    let out = resize_dynimage(&frame, &ResizeMode::Crop, 60, 60).unwrap();
    assert_eq!((out.width, out.height), (60, 60));
    assert_eq!(out.samples.len(), 60 * 60 * 3);
    let out = resize_dynimage(&frame, &ResizeMode::Crop, 7, 33).unwrap();
    assert_eq!((out.width, out.height), (7, 33));
    let out = resize_dynimage(&frame, &ResizeMode::Crop, 200, 10).unwrap();
    assert_eq!((out.width, out.height), (200, 10));
}

#[test]
fn crop_cuts_both_sides_alike() {
    // Left third black, middle third white, right third black: the cut keeps
    // the middle.
    let mut samples = Vec::new();
    for _y in 0..10 {
        for x in 0..30 {
            samples.push(if (10..20).contains(&x) { 255u8 } else { 0u8 });
        }
    }
    let frame = DecodedFrame {
        width: 30,
        height: 10,
        layout: PixelLayout::L8,
        samples,
        delay: 0,
        left: 0,
        top: 0,
    };
    let out = resize_dynimage(&frame, &ResizeMode::Crop, 10, 10).unwrap();
    assert_eq!((out.width, out.height), (10, 10));
    assert!(out.samples[5 * 10 + 5] > 200);
    assert!(out.samples[5 * 10 + 4] > 200);
}

#[test]
fn stretch_ignores_the_aspect_ratio() {
    let frame = gradient(100, 50, PixelLayout::Rgba8);
    let out = resize_dynimage(&frame, &ResizeMode::Stretch, 40, 80).unwrap();
    assert_eq!((out.width, out.height), (40, 80));
    assert_eq!(out.samples.len(), 40 * 80 * 4);
}

#[test]
fn resampling_a_flat_frame_keeps_its_colour() {
    for mode in [ResizeMode::Contain, ResizeMode::Crop, ResizeMode::Stretch] {
        let frame = flat(16, 8, PixelLayout::Rgb8, 200);
        let out = resize_dynimage(&frame, &mode, 4, 4).unwrap();
        assert!(out.samples.iter().all(|s| *s == 200));
        assert!(out.samples.len() < frame.samples.len());
    }
}

#[test]
fn resampling_keeps_timing_and_placement() {
    let mut frame = gradient(8, 8, PixelLayout::Rgba8);
    frame.delay = 12;
    frame.left = 3;
    frame.top = 4;
    let out = resize_dynimage(&frame, &ResizeMode::Stretch, 4, 2).unwrap();
    assert_eq!((out.delay, out.left, out.top), (12, 3, 4));
}

#[test]
fn resampling_is_repeatable() {
    let frame = gradient(31, 17, PixelLayout::Rgba8);
    for mode in [ResizeMode::Contain, ResizeMode::Crop, ResizeMode::Stretch] {
        let first = resize_dynimage(&frame, &mode, 9, 11).unwrap();
        let second = resize_dynimage(&frame, &mode, 9, 11).unwrap();
        assert_eq!(first, second);
    }
}

#[test]
fn the_box_of_the_source_gives_the_source_size() {
    let frame = gradient(21, 9, PixelLayout::Rgb8);
    for mode in [ResizeMode::Contain, ResizeMode::Crop, ResizeMode::Stretch] {
        let out = resize_dynimage(&frame, &mode, 21, 9).unwrap();
        assert_eq!((out.width, out.height), (21, 9));
    }
}

#[test]
fn a_target_without_pixels_is_refused() {
    let frame = gradient(8, 8, PixelLayout::Rgb8);
    for mode in [ResizeMode::Contain, ResizeMode::Crop, ResizeMode::Stretch] {
        assert_eq!(resize_dynimage(&frame, &mode, 0, 5), Err(ResampleError::ZeroTarget));
        assert_eq!(resize_dynimage(&frame, &mode, 5, 0), Err(ResampleError::ZeroTarget));
        assert_eq!(check_resample(&frame, mode, 0, 0), Some(ResampleError::ZeroTarget));
    }
}

#[test]
fn a_zero_target_comes_before_bad_geometry() {
    let mut frame = gradient(8, 8, PixelLayout::Rgb8);
    frame.samples.pop();
    assert_eq!(
        resize_dynimage(&frame, &ResizeMode::Stretch, 0, 5),
        Err(ResampleError::ZeroTarget)
    );
}

#[test]
fn inconsistent_geometry_is_refused() {
    let mut frame = gradient(8, 8, PixelLayout::Rgb8);
    frame.samples.pop();
    for mode in [ResizeMode::Contain, ResizeMode::Crop, ResizeMode::Stretch] {
        assert_eq!(resize_dynimage(&frame, &mode, 4, 4), Err(ResampleError::Geometry));
    }
    let empty = DecodedFrame {
        width: 0,
        height: 0,
        layout: PixelLayout::Rgba8,
        samples: Vec::new(),
        delay: 0,
        left: 0,
        top: 0,
    };
    assert_eq!(resize_dynimage(&empty, &ResizeMode::Crop, 4, 4), Err(ResampleError::Geometry));
}

#[test]
fn sizes_beyond_the_limits_are_refused() {
    let frame = gradient(2, 2, PixelLayout::Rgb8);
    assert_eq!(
        resize_dynimage(&frame, &ResizeMode::Stretch, 1_048_577, 1),
        Err(ResampleError::TooLarge)
    );
    assert_eq!(
        resize_dynimage(&frame, &ResizeMode::Crop, 1, 1_048_577),
        Err(ResampleError::TooLarge)
    );
    assert_eq!(
        resize_dynimage(&frame, &ResizeMode::Contain, u32::MAX, u32::MAX),
        Err(ResampleError::TooLarge)
    );
    // A covering size that saturates.
    assert_eq!(
        check_sizes(1, 65_536, PixelLayout::Rgba8, ResizeMode::Crop, 65_537, 1),
        Some(ResampleError::TooLarge)
    );
    // Too many source pixels for one target pixel.
    assert_eq!(
        check_sizes(5000, 5000, PixelLayout::Rgb8, ResizeMode::Stretch, 1, 1),
        Some(ResampleError::TooLarge)
    );
    assert_eq!(check_sizes(4000, 4000, PixelLayout::Rgb8, ResizeMode::Stretch, 1, 1), None);
    // The largest side that is taken, and the first that is not.
    assert_eq!(check_sizes(2, 2, PixelLayout::L8, ResizeMode::Stretch, 1_048_576, 1), None);
    assert_eq!(
        check_sizes(1_048_577, 1, PixelLayout::L8, ResizeMode::Stretch, 4, 4),
        Some(ResampleError::TooLarge)
    );
}

#[test]
fn a_wide_open_box_is_no_obstacle_when_fitting() {
    let frame = gradient(10, 5, PixelLayout::Rgb8);
    let out = resize_dynimage(&frame, &ResizeMode::Contain, 20, u32::MAX).unwrap();
    assert_eq!((out.width, out.height), (20, 10));
}

#[test]
fn sizes_are_checked_in_order() {
    assert_eq!(
        check_sizes(0, 0, PixelLayout::Rgba8, ResizeMode::Crop, 0, 4),
        Some(ResampleError::ZeroTarget)
    );
    assert_eq!(
        check_sizes(0, 9, PixelLayout::Rgba8, ResizeMode::Crop, 4, 4),
        Some(ResampleError::Geometry)
    );
    assert_eq!(check_sizes(80, 80, PixelLayout::Rgba8, ResizeMode::Crop, 4, 4), None);
}

#[test]
fn jpeg_png_and_gif_decode_to_the_frame_size() {
    let frame = gradient(50, 25, PixelLayout::Rgb8);
    for (encoding, format) in [
        (Encoding::Jpeg, image::ImageFormat::Jpeg),
        (Encoding::Png, image::ImageFormat::Png),
        (Encoding::Gif, image::ImageFormat::Gif),
    ] {
        let bytes = encode_image(&frame, &encoding).unwrap();
        assert_eq!(image::guess_format(&bytes).unwrap(), format);
        let back = image::load_from_memory(&bytes).unwrap().to_rgb8();
        assert_eq!(back.dimensions(), (50, 25));
    }
}

#[test]
fn png_keeps_every_sample() {
    for layout in [PixelLayout::L8, PixelLayout::La8, PixelLayout::Rgb8, PixelLayout::Rgba8] {
        let frame = gradient(9, 7, layout);
        let bytes = encode_image(&frame, &Encoding::Png).unwrap();
        let back = image::load_from_memory(&bytes).unwrap();
        assert_eq!(back.to_bytes(), frame.samples);
    }
}

#[test]
fn jpeg_quality_is_eighty_five() {
    let frame = gradient(64, 64, PixelLayout::Rgb8);
    let bytes = encode_image(&frame, &Encoding::Jpeg).unwrap();
    let mut expected = Vec::new();
    image::DynamicImage::ImageRgb8(
        image::ImageBuffer::from_raw(64, 64, frame.samples.clone()).unwrap(),
    )
    .write_to(&mut expected, image::ImageOutputFormat::Jpeg(85))
    .unwrap();
    assert_eq!(bytes, expected);
}

#[test]
fn webp_takes_rgb_and_rgba() {
    for layout in [PixelLayout::Rgb8, PixelLayout::Rgba8] {
        let frame = gradient(60, 40, layout);
        let bytes = encode_image(&frame, &Encoding::WebP).unwrap();
        assert_eq!(&bytes[0..4], b"RIFF");
        assert_eq!(&bytes[8..12], b"WEBP");
        let back = webp::Decoder::new(&bytes).decode().unwrap();
        assert_eq!((back.width(), back.height()), (60, 40));
    }
}

#[test]
fn webp_refuses_other_layouts() {
    for layout in [PixelLayout::L8, PixelLayout::La8] {
        let frame = gradient(6, 4, layout);
        assert!(matches!(encode_image(&frame, &Encoding::WebP), Err(EncodeError::Unsupported)));
    }
}

#[test]
fn webp_refuses_sides_beyond_its_range() {
    let frame = flat(16_384, 1, PixelLayout::Rgb8, 9);
    assert!(matches!(encode_image(&frame, &Encoding::WebP), Err(EncodeError::Unsupported)));
    let frame = flat(16_383, 1, PixelLayout::Rgb8, 9);
    assert!(encode_image(&frame, &Encoding::WebP).is_ok());
}

#[test]
fn a_frame_of_inconsistent_geometry_is_not_encoded() {
    let mut frame = gradient(6, 4, PixelLayout::Rgb8);
    frame.samples.truncate(10);
    for encoding in [Encoding::Jpeg, Encoding::Png, Encoding::WebP, Encoding::Gif] {
        assert!(matches!(encode_image(&frame, &encoding), Err(EncodeError::Unsupported)));
    }
}

#[test]
fn an_encoder_failure_keeps_its_cause() {
    // A GIF has no room for a side beyond 65535 pixels.
    let frame = flat(65_536, 1, PixelLayout::L8, 1);
    match encode_image(&frame, &Encoding::Gif) {
        Err(EncodeError::Underlying(cause)) => {
            assert!(matches!(cause, pxcmprs_core::error::CodecFailure::Still(_)));
        }
        other => panic!("expected an encoder failure, got {:?}", other.map(|b| b.len())),
    }
}
