use voyage_texture_converter::format::{
    compressor_for, container_format_for, eq_ignore_ascii_case, format_from_name,
    CompressionFormat, CompressionRoutine, PixelFormatCode,
};

#[test]
fn known_names_select_their_formats() {
    assert_eq!(format_from_name("bc7"), CompressionFormat::Bc7);
    assert_eq!(format_from_name("rgba8"), CompressionFormat::Rgba8);
    assert_eq!(format_from_name("rgba8_unorm"), CompressionFormat::Rgba8Unorm);
    assert_eq!(format_from_name("dxt5"), CompressionFormat::Dxt5);
}

#[test]
fn name_lookup_is_case_insensitive() {
    assert_eq!(format_from_name("BC7"), CompressionFormat::Bc7);
    assert_eq!(format_from_name("Bc7"), CompressionFormat::Bc7);
    assert_eq!(format_from_name("bc7"), CompressionFormat::Bc7);
    assert_eq!(format_from_name("DXT5"), CompressionFormat::Dxt5);
    assert_eq!(format_from_name("DxT5"), CompressionFormat::Dxt5);
    assert_eq!(format_from_name("RGBA8"), CompressionFormat::Rgba8);
    assert_eq!(format_from_name("RGBA8_UNORM"), CompressionFormat::Rgba8Unorm);
}

#[test]
fn unknown_names_default_to_bc7() {
    assert_eq!(format_from_name("foobar"), format_from_name("bc7"));
    assert_eq!(format_from_name("foobar"), CompressionFormat::Bc7);
    assert_eq!(format_from_name(""), CompressionFormat::Bc7);
    assert_eq!(format_from_name("bc7 "), CompressionFormat::Bc7);
    assert_eq!(format_from_name("dxt"), CompressionFormat::Bc7);
}

#[test]
fn ascii_case_comparison() {
    assert!(eq_ignore_ascii_case("Bc7", "bC7"));
    assert!(eq_ignore_ascii_case("", ""));
    assert!(!eq_ignore_ascii_case("bc7", "bc"));
    assert!(!eq_ignore_ascii_case("bc7", "bc8"));
}

#[test]
fn container_codes_are_total() {
    assert_eq!(
        container_format_for(CompressionFormat::Bc7),
        PixelFormatCode::Bc7UnormSrgb
    );
    assert_eq!(
        container_format_for(CompressionFormat::Dxt5),
        PixelFormatCode::Bc3UnormSrgb
    );
    assert_eq!(
        container_format_for(CompressionFormat::Rgba8),
        PixelFormatCode::Rgba8Uint
    );
    assert_eq!(
        container_format_for(CompressionFormat::Rgba8Unorm),
        PixelFormatCode::Rgba8UnormCode
    );
}

#[test]
fn compression_routines_are_total() {
    assert_eq!(
        compressor_for(CompressionFormat::Bc7),
        CompressionRoutine::Bc7Routine
    );
    assert_eq!(
        compressor_for(CompressionFormat::Dxt5),
        CompressionRoutine::Bc3Routine
    );
    assert_eq!(
        compressor_for(CompressionFormat::Rgba8),
        CompressionRoutine::IdentityRoutine
    );
    assert_eq!(
        compressor_for(CompressionFormat::Rgba8Unorm),
        CompressionRoutine::IdentityRoutine
    );
}
