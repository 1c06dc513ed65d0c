//! Reading pixels back.
use welding::native_frame::TextureFormat;
use welding::probe::{
    pixel_fixture_expected, popup_report, probe_region, report, ProbeRegion, Readback, Verdict,
    PIXEL_TOLERANCE,
};

use welding::Platform;

#[test]
fn the_block_is_in_the_middle() {
    assert_eq!(probe_region(1280, 801, Platform::Linux), Ok(ProbeRegion { x: 608, y: 368, width: 64, height: 64 }));
    assert_eq!(probe_region(10, 64, Platform::Linux), Ok(ProbeRegion { x: 0, y: 0, width: 10, height: 64 }));
    assert_eq!(
        probe_region(1280, 801, Platform::Macos),
        Ok(ProbeRegion { x: 0, y: 0, width: 64, height: 64 })
    );
    assert_eq!(probe_region(0, 64, Platform::Linux), Err("imported texture has a zero dimension".to_owned()));
}

fn block(width: u32, height: u32, pixel: [u8; 4]) -> Readback {
    let mut data = vec![0u8; 256 * height as usize];
    for y in 0..height as usize {
        for x in 0..width as usize {
            data[y * 256 + x * 4..y * 256 + x * 4 + 4].copy_from_slice(&pixel);
        }
    }
    Readback::from_bytes(&data, ProbeRegion { x: 5, y: 6, width, height }, Platform::Windows)
}

#[test]
fn padding_is_not_part_of_the_block() {
    let readback = block(3, 2, [1, 2, 3, 4]);
    assert_eq!(readback.total_pixels(), 6);
    assert_eq!(readback.total_bytes, 512);
    assert_eq!(readback.non_zero_bytes, 24);
    assert_eq!(readback.origin, (5, 6));
    assert_eq!(readback.first_pixels, vec![[1, 2, 3, 4]; 4]);
    assert_eq!(block(1, 1, [9, 9, 9, 9]).first_pixels, vec![[9, 9, 9, 9]]);
}

#[test]
fn pixels_are_taken_row_by_row() {
    let mut data = vec![0u8; 512];
    data[4] = 10;
    data[256] = 20;
    let readback = Readback::from_bytes(
        &data,
        ProbeRegion { x: 0, y: 0, width: 2, height: 2 },
        Platform::Windows,
    );
    assert_eq!(
        readback.pixels,
        vec![[0, 0, 0, 0], [10, 0, 0, 0], [20, 0, 0, 0], [0, 0, 0, 0]]
    );
}

#[test]
fn every_channel_has_to_be_close() {
    let readback = block(2, 2, [100, 100, 100, 100]);
    assert_eq!(readback.matching_pixels([108, 92, 100, 100], 8), 4);
    assert_eq!(readback.matching_pixels([109, 100, 100, 100], 8), 0);
    assert_eq!(readback.matching_pixels([100, 100, 100, 91], 8), 0);
    assert!(readback.looks_painted());
    assert!(!block(2, 2, [0; 4]).looks_painted());
}

#[test]
fn the_fixture_is_one_colour_in_every_format() {
    assert_eq!(pixel_fixture_expected(TextureFormat::Bgra8Unorm), Some([255, 144, 30, 255]));
    assert_eq!(pixel_fixture_expected(TextureFormat::Rgba8UnormSrgb), Some([30, 144, 255, 255]));
    assert_eq!(pixel_fixture_expected(TextureFormat::Other("R8Unorm")), None);
}

#[test]
fn a_verdict_needs_a_frame_a_readback_and_the_right_pixels() {
    let bgra = TextureFormat::Bgra8UnormSrgb;
    assert_eq!(report(None, false), Verdict::NoFrame);
    assert_eq!(report(Some((bgra, None)), false), Verdict::ReadbackFailed);
    let right = block(4, 4, [255, 144, 30 + PIXEL_TOLERANCE, 255]);
    let wrong = block(4, 4, [255, 144, 31 + PIXEL_TOLERANCE, 255]);
    let zero = block(4, 4, [0; 4]);
    let passed = report(Some((bgra, Some(&right))), true);
    assert_eq!(passed, Verdict::Fixture { matched: 16, total: 16 });
    assert!(passed.passed());
    let failed = report(Some((bgra, Some(&wrong))), true);
    assert_eq!(failed, Verdict::Fixture { matched: 0, total: 16 });
    assert!(!failed.passed());
    assert_eq!(
        report(Some((TextureFormat::Other("R8Unorm"), Some(&right))), true),
        Verdict::UnsupportedFormat
    );
    assert_eq!(report(Some((bgra, Some(&wrong))), false), Verdict::Painted);
    assert_eq!(report(Some((bgra, Some(&zero))), false), Verdict::AllZero);
    assert!(!Verdict::AllZero.passed() && Verdict::Painted.passed());
    assert_eq!(popup_report(0, None), None);
    assert_eq!(popup_report(1, None), Some(Verdict::NoFrame));
    assert_eq!(popup_report(1, Some(Some(&zero))), Some(Verdict::AllZero));
    assert_eq!(popup_report(1, Some(Some(&right))), Some(Verdict::Painted));
}

#[test]
fn the_first_pixels_of_a_narrow_block_differ_by_platform() {
    let mut data = vec![0u8; 512];
    data[..4].copy_from_slice(&[1, 2, 3, 4]);
    data[4..8].copy_from_slice(&[9, 9, 9, 9]);
    data[256..260].copy_from_slice(&[5, 6, 7, 8]);
    let region = ProbeRegion { x: 0, y: 0, width: 1, height: 2 };
    let windows = Readback::from_bytes(&data, region, Platform::Windows);
    assert_eq!(windows.first_pixels, vec![[1, 2, 3, 4], [5, 6, 7, 8]]);
    let linux = Readback::from_bytes(&data, region, Platform::Linux);
    assert_eq!(linux.first_pixels, vec![[1, 2, 3, 4], [9, 9, 9, 9], [0; 4], [0; 4]]);
    assert_eq!(linux.pixels, windows.pixels);
}
