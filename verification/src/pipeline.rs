//! Pipeline orchestrator: decode the input, measure it, and either pass the
//! raw pixels through (small images) or align, resample and block-compress
//! them into a container payload.

use vstd::prelude::*;
use crate::align::{align_to_blocks, spec_align4, spec_dims_ok};
use crate::format::{
    compressor_for, container_format_for, format_from_name, spec_compressor_for,
    spec_container_format_for, spec_format_from_name, CompressionFormat, CompressionRoutine,
};
use crate::surface::{compress, spec_container_len, ImageSurface};

verus! {

/// Images with fewer pixels than this bypass compression entirely and are
/// returned as raw RGBA8.
pub const PASSTHROUGH_AREA: u64 = 65536;

/// The outcome of a conversion: the dimensions actually produced (they may
/// differ from the source image's), the payload bytes, and the format tag
/// that says how to interpret them.
pub struct CompressedPayload {
    pub width: u32,
    pub height: u32,
    pub data: Vec<u8>,
    pub format: CompressionFormat,
}

/// Why a conversion failed. Every failure is fatal for the whole call:
/// there is no partial result.
#[derive(Clone, Copy, Debug, PartialEq, Eq, Structural)]
pub enum ConvertError {
    /// The input bytes are not a recognizable, well-formed image.
    DecodeFailed,
    /// The decoded dimensions overflow the 32-bit sizes the container and
    /// the compression kernels use.
    DimensionsTooLarge,
}

/// What decoding an encoded image yields: its dimensions and its RGBA8
/// conversion, or nothing when the bytes are not a recognizable image.
/// Decoding is a pure function of the input bytes.
pub uninterp spec fn decoded_rgba8(bytes: Seq<u8>) -> Option<(u32, u32, Seq<u8>)>;

/// Relies on image's `ImageReader`: it guesses the format from the bytes,
/// decodes them, and converts the result to RGBA8, whose buffer holds
/// exactly `width * height * 4` bytes. Reading from an in-memory cursor
/// cannot fail, so `with_guessed_format` cannot return an error here.
#[verifier::external_body]
fn decode_to_rgba8(buffer: &[u8]) -> (r: Option<(u32, u32, Vec<u8>)>)
    ensures
        match r {
            Some(t) => decoded_rgba8(buffer@) == Some((t.0, t.1, t.2@)) && t.2@.len() == t.0 * t.1
                * 4,
            None => decoded_rgba8(buffer@) is None,
        },
{
    let reader = image::ImageReader::new(std::io::Cursor::new(buffer))
        .with_guessed_format()
        .unwrap();
    match reader.decode() {
        Ok(img) => {
            let rgba = img.to_rgba8();
            let width = rgba.width();
            let height = rgba.height();
            Some((width, height, rgba.into_raw()))
        },
        Err(_) => None,
    }
}

/// What the compress branch of the pipeline produces for a decoded image of
/// `w * h` pixels `d` and a requested format name: the dimensions are
/// aligned to the block grid, the format is the one the name selects, the
/// payload is sized by the container for that format, and an already
/// aligned image headed for a raw format keeps its bytes. Dimensions whose
/// aligned sizes overflow the container's 32-bit arithmetic are rejected.
pub open spec fn spec_compressed_outcome(
    w: u32,
    h: u32,
    d: Seq<u8>,
    name: Seq<char>,
    r: Result<CompressedPayload, ConvertError>,
) -> bool {
    if spec_dims_ok(w as int, h as int) {
        &&& r matches Ok(p)
        &&& p.width == spec_align4(w as int)
        &&& p.height == spec_align4(h as int)
        &&& p.format == spec_format_from_name(name)
        &&& p.data@.len() == spec_container_len(
            spec_container_format_for(spec_format_from_name(name)),
            spec_align4(w as int),
            spec_align4(h as int),
        )
        &&& (w % 4 == 0 && h % 4 == 0 && spec_compressor_for(spec_format_from_name(name))
            == CompressionRoutine::IdentityRoutine) ==> p.data@ == d
    } else {
        r matches Err(e) && e == ConvertError::DimensionsTooLarge
    }
}

/// What a whole conversion produces for a decoded image: small images pass
/// through as raw `Rgba8` with their original dimensions and bytes; larger
/// ones take the align-and-compress branch.
pub open spec fn spec_converted_outcome(
    w: u32,
    h: u32,
    d: Seq<u8>,
    name: Seq<char>,
    r: Result<CompressedPayload, ConvertError>,
) -> bool {
    if (w as int * h as int) < (PASSTHROUGH_AREA as int) {
        &&& r matches Ok(p)
        &&& p.width == w
        &&& p.height == h
        &&& p.format == CompressionFormat::Rgba8
        &&& p.data@ == d
    } else {
        spec_compressed_outcome(w, h, d, name, r)
    }
}

/// The align-and-compress branch: align the dimensions, resample if that
/// changed them, resolve the requested format name, and compress.
pub fn convert_large(width: u32, height: u32, data: Vec<u8>, format_name: &str) -> (r: Result<
    CompressedPayload,
    ConvertError,
>)
    requires
        data@.len() == width * height * 4,
        1 <= width,
        1 <= height,
    ensures
        spec_compressed_outcome(width, height, data@, format_name@, r),
{
    if width > u32::MAX - 3 || height > u32::MAX - 3 {
        return Err(ConvertError::DimensionsTooLarge);
    }
    let used_width = crate::align::align_up(4, width);
    let used_height = crate::align::align_up(4, height);
    if used_width > u32::MAX / 32 || used_height > u32::MAX / 32 {
        return Err(ConvertError::DimensionsTooLarge);
    }
    proof {
        assert((used_width as int) * (used_height as int) * 4 <= 0x4000_0000_0000_0000)
            by (nonlinear_arith)
            requires
                used_width as int <= 0x7ff_ffff,
                used_height as int <= 0x7ff_ffff,
                0 <= used_width as int,
                0 <= used_height as int,
        ;
    }
    if (used_width as u64) * (used_height as u64) * 4 > i32::MAX as u64 {
        return Err(ConvertError::DimensionsTooLarge);
    }
    proof {
        crate::align::lemma_align4_props(width as int);
        crate::align::lemma_align4_props(height as int);
    }
    let (aligned_width, aligned_height, aligned) = align_to_blocks(width, height, data);
    let format = format_from_name(format_name);
    let code = container_format_for(format);
    let routine = compressor_for(format);
    let surface = ImageSurface::new(aligned_width, aligned_height, aligned.as_slice());
    let (out_width, out_height, payload) = compress(surface, code, routine);
    Ok(CompressedPayload { width: out_width, height: out_height, data: payload, format })
}

/// Converts an already decoded RGBA8 image: small images pass through
/// untouched as raw `Rgba8`, larger ones are aligned and compressed to the
/// requested format.
pub fn convert_decoded(width: u32, height: u32, data: Vec<u8>, format_name: &str) -> (r: Result<
    CompressedPayload,
    ConvertError,
>)
    requires
        data@.len() == width * height * 4,
    ensures
        spec_converted_outcome(width, height, data@, format_name@, r),
{
    proof {
        assert((width as int) * (height as int) <= 0xffff_ffff * 0xffff_ffff) by (nonlinear_arith)
            requires
                0 <= width as int <= 0xffff_ffff,
                0 <= height as int <= 0xffff_ffff,
        ;
    }
    let area = (width as u64) * (height as u64);
    if area < PASSTHROUGH_AREA {
        return Ok(
            CompressedPayload { width, height, data, format: CompressionFormat::Rgba8 },
        );
    }
    proof {
        assert(1 <= width && 1 <= height) by (nonlinear_arith)
            requires
                width as int * height as int >= 65536,
        ;
    }
    convert_large(width, height, data, format_name)
}

/// A small image always bypasses compression: whatever format was asked
/// for, the outcome keeps the original dimensions and bytes and is tagged
/// as raw `Rgba8`.
pub proof fn lemma_small_image_passes_through(
    w: u32,
    h: u32,
    d: Seq<u8>,
    name: Seq<char>,
    r: Result<CompressedPayload, ConvertError>,
)
    requires
        spec_converted_outcome(w, h, d, name, r),
        (w as int * h as int) < (PASSTHROUGH_AREA as int),
    ensures
        ({
            &&& r matches Ok(p)
            &&& p.width == w
            &&& p.height == h
            &&& p.format == CompressionFormat::Rgba8
            &&& p.data@ == d
        }),
{
}

/// A large image whose dimensions are already multiples of 4 keeps its
/// dimensions: no resample occurs.
pub proof fn lemma_aligned_dims_are_kept(
    w: u32,
    h: u32,
    d: Seq<u8>,
    name: Seq<char>,
    r: Result<CompressedPayload, ConvertError>,
)
    requires
        spec_converted_outcome(w, h, d, name, r),
        (w as int * h as int) >= (PASSTHROUGH_AREA as int),
        w % 4 == 0,
        h % 4 == 0,
        spec_dims_ok(w as int, h as int),
    ensures
        ({
            &&& r matches Ok(p)
            &&& p.width == w
            &&& p.height == h
        }),
{
    crate::align::lemma_align4_props(w as int);
    crate::align::lemma_align4_props(h as int);
}

/// A large image whose dimensions are not multiples of 4 comes out at the
/// smallest multiples of 4 at least as large as its own dimensions.
pub proof fn lemma_unaligned_dims_are_rounded_up(
    w: u32,
    h: u32,
    d: Seq<u8>,
    name: Seq<char>,
    r: Result<CompressedPayload, ConvertError>,
)
    requires
        spec_converted_outcome(w, h, d, name, r),
        (w as int * h as int) >= (PASSTHROUGH_AREA as int),
        spec_dims_ok(w as int, h as int),
    ensures
        ({
            &&& r matches Ok(p)
            &&& p.width % 4 == 0
            &&& w <= p.width < w + 4
            &&& p.height % 4 == 0
            &&& h <= p.height < h + 4
        }),
{
    crate::align::lemma_align4_props(w as int);
    crate::align::lemma_align4_props(h as int);
}

/// The conversion entry point: decodes the encoded input bytes and converts
/// the result. Fails with `DecodeFailed` exactly when the bytes are not a
/// recognizable image.
pub fn convert(buffer: &[u8], format_name: &str) -> (r: Result<CompressedPayload, ConvertError>)
    ensures
        match decoded_rgba8(buffer@) {
            Some(t) => spec_converted_outcome(t.0, t.1, t.2, format_name@, r),
            None => r matches Err(e) && e == ConvertError::DecodeFailed,
        },
{
    match decode_to_rgba8(buffer) {
        Some((width, height, data)) => convert_decoded(width, height, data, format_name),
        None => Err(ConvertError::DecodeFailed),
    }
}

} // verus!
