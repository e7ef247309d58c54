use voyage_texture_converter::format::{CompressionFormat, CompressionRoutine, PixelFormatCode};
use voyage_texture_converter::pipeline::{convert, convert_decoded, convert_large, ConvertError};
use voyage_texture_converter::surface::{compress, ImageSurface};

/// A solid-color PNG of the given size, encoded in memory.
fn solid_png(width: u32, height: u32, rgba: [u8; 4]) -> Vec<u8> {
    let img = image::RgbaImage::from_pixel(width, height, image::Rgba(rgba));
    let mut out = std::io::Cursor::new(Vec::new());
    img.write_to(&mut out, image::ImageFormat::Png).unwrap();
    out.into_inner()
}

#[test]
fn small_image_passes_through_as_raw_rgba8() {
    let png = solid_png(100, 100, [255, 0, 0, 255]);
    let p = convert(&png, "bc7").unwrap();
    assert_eq!(p.width, 100);
    assert_eq!(p.height, 100);
    assert_eq!(p.format, CompressionFormat::Rgba8);
    assert_eq!(p.data.len(), 100 * 100 * 4);
    let expected: Vec<u8> = [255u8, 0, 0, 255].repeat(100 * 100);
    assert_eq!(p.data, expected);
}

#[test]
fn large_aligned_image_is_bc7_compressed() {
    let png = solid_png(300, 300, [0, 128, 255, 255]);
    let p = convert(&png, "bc7").unwrap();
    assert_eq!(p.width, 300);
    assert_eq!(p.height, 300);
    assert_eq!(p.format, CompressionFormat::Bc7);
    assert_eq!(p.data.len(), (300 / 4) * (300 / 4) * 16);
    // The routine really wrote blocks: the payload is not the zero-filled
    // buffer it started from.
    assert!(p.data.iter().any(|&b| b != 0));
}

#[test]
fn large_aligned_image_is_dxt5_compressed() {
    let png = solid_png(256, 256, [10, 20, 30, 40]);
    let p = convert(&png, "dxt5").unwrap();
    assert_eq!(p.width, 256);
    assert_eq!(p.height, 256);
    assert_eq!(p.format, CompressionFormat::Dxt5);
    assert_eq!(p.data.len(), (256 / 4) * (256 / 4) * 16);
    assert!(p.data.iter().any(|&b| b != 0));
}

#[test]
fn large_unaligned_image_is_resampled_to_aligned_size() {
    let png = solid_png(301, 300, [1, 2, 3, 255]);
    let p = convert(&png, "rgba8").unwrap();
    assert_eq!(p.width, 304);
    assert_eq!(p.height, 300);
    assert_eq!(p.format, CompressionFormat::Rgba8);
    assert_eq!(p.data.len(), 304 * 300 * 4);
}

#[test]
fn large_aligned_raw_image_keeps_its_bytes() {
    let png = solid_png(256, 256, [9, 8, 7, 6]);
    let p = convert(&png, "rgba8_unorm").unwrap();
    assert_eq!(p.width, 256);
    assert_eq!(p.height, 256);
    assert_eq!(p.format, CompressionFormat::Rgba8Unorm);
    let expected: Vec<u8> = [9u8, 8, 7, 6].repeat(256 * 256);
    assert_eq!(p.data, expected);
}

#[test]
fn unknown_format_name_behaves_like_bc7() {
    let png = solid_png(300, 300, [50, 60, 70, 80]);
    let with_typo = convert(&png, "foobar").unwrap();
    let with_bc7 = convert(&png, "bc7").unwrap();
    assert_eq!(with_typo.format, CompressionFormat::Bc7);
    assert_eq!(with_typo.format, with_bc7.format);
    assert_eq!(with_typo.width, with_bc7.width);
    assert_eq!(with_typo.height, with_bc7.height);
    assert_eq!(with_typo.data, with_bc7.data);
}

#[test]
fn unrecognizable_bytes_fail_to_decode() {
    let r = convert(b"definitely not an image", "bc7");
    assert!(matches!(r, Err(ConvertError::DecodeFailed)));
    let r = convert(&[], "bc7");
    assert!(matches!(r, Err(ConvertError::DecodeFailed)));
}

#[test]
fn decoded_small_image_passes_through() {
    let data: Vec<u8> = [3u8, 1, 4, 1].repeat(10 * 10);
    let p = convert_decoded(10, 10, data.clone(), "dxt5").unwrap();
    assert_eq!(p.width, 10);
    assert_eq!(p.height, 10);
    assert_eq!(p.format, CompressionFormat::Rgba8);
    assert_eq!(p.data, data);
}

#[test]
fn compress_branch_on_a_small_solid_red_image() {
    // The compress branch taken directly, as if the passthrough threshold
    // were lowered below 16 * 16 pixels.
    let data: Vec<u8> = [255u8, 0, 0, 255].repeat(16 * 16);
    let p = convert_large(16, 16, data, "dxt5").unwrap();
    assert_eq!(p.width, 16);
    assert_eq!(p.height, 16);
    assert_eq!(p.format, CompressionFormat::Dxt5);
    assert_eq!(p.data.len(), 4 * 4 * 16);
}

#[test]
fn surface_compressor_sizes_block_payloads_exactly() {
    let data: Vec<u8> = [128u8, 128, 128, 255].repeat(64 * 32);
    let surface = ImageSurface::new(64, 32, &data);
    let (w, h, payload) = compress(
        surface,
        PixelFormatCode::Bc7UnormSrgb,
        CompressionRoutine::Bc7Routine,
    );
    assert_eq!(w, 64);
    assert_eq!(h, 32);
    assert_eq!(payload.len(), (64 / 4) * (32 / 4) * 16);
}

#[test]
fn surface_compressor_identity_copies_raw_payloads() {
    let data: Vec<u8> = [1u8, 2, 3, 4].repeat(8 * 8);
    let surface = ImageSurface::new(8, 8, &data);
    let (w, h, payload) = compress(
        surface,
        PixelFormatCode::Rgba8Uint,
        CompressionRoutine::IdentityRoutine,
    );
    assert_eq!(w, 8);
    assert_eq!(h, 8);
    assert_eq!(payload, data);
}
