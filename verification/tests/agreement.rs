use pxcmprs_core::dimensions::{resize_dimensions, resolve};
use pxcmprs_core::frame::{DecodedFrame, PixelLayout};
use pxcmprs_core::mode::ResizeMode;
use pxcmprs_core::transform::resize_dynimage;

fn frame(width: u32, height: u32, layout: PixelLayout) -> DecodedFrame {
    let len = (width * height * u32::from(layout.channel_count())) as usize;
    let samples = (0..len).map(|i| (i * 37 % 256) as u8).collect();
    DecodedFrame { width, height, layout, samples, delay: 0, left: 0, top: 0 }
}

#[test]
fn resampled_sizes_agree_with_the_resolver() {
    let sides = [1u32, 2, 3, 5, 8, 13];
    for mode in [ResizeMode::Contain, ResizeMode::Crop, ResizeMode::Stretch] {
        for &w in &sides {
            for &h in &sides {
                let source = frame(w, h, PixelLayout::Rgba8);
                for &bw in &sides {
                    for &bh in &sides {
                        let out = resize_dynimage(&source, &mode, bw, bh).unwrap();
                        assert_eq!(
                            (out.width, out.height),
                            resolve(w, h, Some(bw), Some(bh), mode),
                            "{:?} {}x{} into {}x{}",
                            mode,
                            w,
                            h,
                            bw,
                            bh
                        );
                        assert!(out.has_valid_geometry());
                        assert!(out.width <= bw && out.height <= bh);
                        assert!(out.width == bw || out.height == bh);
                    }
                }
            }
        }
    }
}

#[test]
fn every_layout_is_resampled_in_every_mode() {
    for layout in [PixelLayout::L8, PixelLayout::La8, PixelLayout::Rgb8, PixelLayout::Rgba8] {
        for mode in [ResizeMode::Contain, ResizeMode::Crop, ResizeMode::Stretch] {
            let out = resize_dynimage(&frame(40, 30, layout), &mode, 20, 20).unwrap();
            assert_eq!(out.layout, layout);
            assert_eq!((out.width, out.height), resolve(40, 30, Some(20), Some(20), mode));
            let up = resize_dynimage(&frame(4, 3, layout), &mode, 20, 20).unwrap();
            assert_eq!((up.width, up.height), resolve(4, 3, Some(20), Some(20), mode));
            assert_eq!(
                up.samples.len(),
                (up.width * up.height * u32::from(layout.channel_count())) as usize
            );
        }
    }
}

#[test]
fn fitted_sizes_stay_inside_the_box() {
    for w in 1u32..40 {
        for h in 1u32..40 {
            for (bw, bh) in [(1u32, 1u32), (7, 3), (3, 7), (16, 16), (100, 1), (1, 100)] {
                let (fw, fh) = resize_dimensions(w, h, bw, bh, false);
                assert!(1 <= fw && fw <= bw && 1 <= fh && fh <= bh);
                assert!(fw == bw || fh == bh);
                let (cw, ch) = resize_dimensions(w, h, bw, bh, true);
                assert!(cw >= bw && ch >= bh);
                assert!(cw == bw || ch == bh);
            }
        }
    }
}

#[test]
fn strongly_scaled_frames_come_out_whole() {
    let wide = frame(600, 2, PixelLayout::Rgb8);
    let out = resize_dynimage(&wide, &ResizeMode::Contain, 10, 10).unwrap();
    assert_eq!((out.width, out.height), (10, 1));
    let out = resize_dynimage(&wide, &ResizeMode::Crop, 3, 9).unwrap();
    assert_eq!((out.width, out.height), (3, 9));
    let out = resize_dynimage(&wide, &ResizeMode::Stretch, 1, 1).unwrap();
    assert_eq!((out.width, out.height), (1, 1));
    let dot = frame(1, 1, PixelLayout::L8);
    let out = resize_dynimage(&dot, &ResizeMode::Stretch, 300, 200).unwrap();
    assert_eq!(out.samples.len(), 60_000);
    assert!(out.samples.iter().all(|s| *s == dot.samples[0]));
}

#[test]
fn a_large_block_is_averaged_without_wrapping() {
    // 2000 x 2000 white pixels fall onto one target pixel: their sum is far
    // above 16 bits and has to stay exact.
    let white = DecodedFrame {
        width: 2000,
        height: 2000,
        layout: PixelLayout::L8,
        samples: vec![255; 4_000_000],
        delay: 0,
        left: 0,
        top: 0,
    };
    let out = resize_dynimage(&white, &ResizeMode::Stretch, 1, 1).unwrap();
    assert_eq!(out.samples, vec![255]);
    let out = resize_dynimage(&white, &ResizeMode::Contain, 3, 9).unwrap();
    assert_eq!((out.width, out.height), (3, 3));
    assert!(out.samples.iter().all(|s| *s == 255));
}
