//! Surface compressor: wraps an RGBA8 byte buffer plus dimensions into a
//! surface view, sizes a destination buffer for the chosen container format,
//! and invokes the selected block-compression routine to fill it.

use vstd::prelude::*;
use crate::format::{CompressionRoutine, PixelFormatCode};

verus! {

/// A non-owning view over a contiguous RGBA8 byte buffer.
///
/// Rows are tightly packed: the stride is exactly `width * 4` bytes.
pub struct ImageSurface<'a> {
    pub width: u32,
    pub height: u32,
    pub stride: u32,
    pub data: &'a [u8],
}

impl<'a> ImageSurface<'a> {
    /// The buffer holds exactly one tightly packed RGBA8 row per pixel row.
    pub open spec fn wf(self) -> bool {
        &&& self.stride == self.width * 4
        &&& self.data@.len() == self.stride * self.height
    }

    /// Builds the view over `data`, fixing the stride to `width * 4`.
    pub fn new(width: u32, height: u32, data: &'a [u8]) -> (s: ImageSurface<'a>)
        requires
            data@.len() == width * height * 4,
            width * 4 <= u32::MAX,
        ensures
            s.wf(),
            s.width == width,
            s.height == height,
            s.data@ == data@,
    {
        let stride = width * 4;
        proof {
            assert(width * height * 4 == (width * 4) * height) by (nonlinear_arith);
        }
        ImageSurface { width, height, stride, data }
    }
}

/// The byte length of one mip level of block data in the container, for a
/// pixel-format code and the dimensions of the stored image: 16 bytes per
/// 4x4 block for the block-compressed codes, 4 bytes per pixel for the raw
/// ones.
pub open spec fn spec_container_len(code: PixelFormatCode, w: int, h: int) -> int {
    match code {
        PixelFormatCode::Bc7UnormSrgb => ((w + 3) / 4) * ((h + 3) / 4) * 16,
        PixelFormatCode::Bc3UnormSrgb => ((w + 3) / 4) * ((h + 3) / 4) * 16,
        PixelFormatCode::Rgba8Uint => w * h * 4,
        PixelFormatCode::Rgba8UnormCode => w * h * 4,
    }
}

/// Relies on ddsfile's `Dds::new_dxgi`: for a single-mip, single-layer 2D
/// texture it allocates a zero-filled data region sized from the pixel
/// format and the dimensions (16 bytes per 4x4 block for BC formats, 4
/// bytes per pixel for the 8-bit RGBA formats), and `get_data(0)` returns
/// exactly that region. The preconditions keep ddsfile's 32-bit size
/// arithmetic from overflowing.
#[verifier::external_body]
fn alloc_container_data(code: PixelFormatCode, width: u32, height: u32) -> (r: Vec<u8>)
    requires
        1 <= width,
        1 <= height,
        width * 32 <= u32::MAX,
        height * 32 <= u32::MAX,
        width * height * 4 <= u32::MAX,
    ensures
        r@.len() == spec_container_len(code, width as int, height as int),
{
    let format = match code {
        PixelFormatCode::Bc7UnormSrgb => ddsfile::DxgiFormat::BC7_UNorm_sRGB,
        PixelFormatCode::Bc3UnormSrgb => ddsfile::DxgiFormat::BC3_UNorm_sRGB,
        PixelFormatCode::Rgba8Uint => ddsfile::DxgiFormat::R8G8B8A8_UInt,
        PixelFormatCode::Rgba8UnormCode => ddsfile::DxgiFormat::R8G8B8A8_UNorm,
    };
    let params = ddsfile::NewDxgiParams {
        height, width, depth: Some(1), format, mipmap_levels: Some(1), array_layers: Some(1),
        caps2: Some(ddsfile::Caps2::empty()), is_cubemap: false,
        resource_dimension: ddsfile::D3D10ResourceDimension::Texture2D,
        alpha_mode: ddsfile::AlphaMode::Straight,
    };
    ddsfile::Dds::new_dxgi(params).unwrap().get_data(0).unwrap().to_vec()
}

/// Relies on intel_tex's `bc7::compress_blocks_into` with the
/// alpha-capable ultra-fast settings: it overwrites `dest` in place with one
/// 16-byte block per 4x4 pixel tile and asserts that `dest` holds exactly
/// one byte per source pixel, which the preconditions guarantee. The
/// bindings hand the precompiled kernel the stride as an `i32`, so the
/// kernel walks the surface with signed 32-bit byte offsets: the stride
/// bound keeps every such offset (at most `height * stride`) in range, and
/// with it the kernel's own `width * height` arithmetic.
#[verifier::external_body]
fn bc7_compress_into(surface: &ImageSurface, dest: &mut Vec<u8>)
    requires
        surface.wf(),
        surface.width % 4 == 0,
        surface.height % 4 == 0,
        surface.height * surface.stride <= i32::MAX,
        old(dest)@.len() == surface.width * surface.height,
    ensures
        final(dest)@.len() == old(dest)@.len(),
{
    let s = intel_tex::RgbaSurface {
        width: surface.width,
        height: surface.height,
        stride: surface.stride,
        data: surface.data,
    };
    intel_tex::bc7::compress_blocks_into(
        &intel_tex::bc7::alpha_ultra_fast_settings(),
        &s,
        dest.as_mut_slice(),
    );
}

/// Relies on intel_tex's `bc3::compress_blocks_into`: it overwrites
/// `dest` in place with one 16-byte block per 4x4 pixel tile and asserts
/// that `dest` holds exactly one byte per source pixel, which the
/// preconditions guarantee. As for the BC7 routine, the stride bound keeps
/// the kernel's signed 32-bit byte offsets in range.
#[verifier::external_body]
fn bc3_compress_into(surface: &ImageSurface, dest: &mut Vec<u8>)
    requires
        surface.wf(),
        surface.width % 4 == 0,
        surface.height % 4 == 0,
        surface.height * surface.stride <= i32::MAX,
        old(dest)@.len() == surface.width * surface.height,
    ensures
        final(dest)@.len() == old(dest)@.len(),
{
    let s = intel_tex::RgbaSurface {
        width: surface.width,
        height: surface.height,
        stride: surface.stride,
        data: surface.data,
    };
    intel_tex::bc3::compress_blocks_into(&s, dest.as_mut_slice());
}

/// The code and the routine belong to the same format: the registry maps
/// each format to exactly one of each.
pub open spec fn code_matches_routine(code: PixelFormatCode, routine: CompressionRoutine) -> bool {
    match routine {
        CompressionRoutine::Bc7Routine => code == PixelFormatCode::Bc7UnormSrgb,
        CompressionRoutine::Bc3Routine => code == PixelFormatCode::Bc3UnormSrgb,
        CompressionRoutine::IdentityRoutine => code == PixelFormatCode::Rgba8Uint
            || code == PixelFormatCode::Rgba8UnormCode,
    }
}

/// Compresses a block-aligned RGBA8 surface into a container payload.
///
/// For the block-compressed codes the payload holds `(w/4) * (h/4)` blocks
/// of 16 bytes, filled by the selected routine; for the raw codes the
/// payload is the identity copy of the source bytes.
pub fn compress<'a>(surface: ImageSurface<'a>, code: PixelFormatCode, routine: CompressionRoutine) -> (r: (
    u32,
    u32,
    Vec<u8>,
))
    requires
        surface.wf(),
        surface.width % 4 == 0,
        surface.height % 4 == 0,
        1 <= surface.width,
        1 <= surface.height,
        surface.width * 32 <= u32::MAX,
        surface.height * 32 <= u32::MAX,
        surface.width * surface.height * 4 <= i32::MAX,
        code_matches_routine(code, routine),
    ensures
        r.0 == surface.width,
        r.1 == surface.height,
        r.2@.len() == spec_container_len(code, surface.width as int, surface.height as int),
        routine == CompressionRoutine::IdentityRoutine ==> r.2@ == surface.data@,
{
    proof {
        lemma_aligned_block_bytes(surface.width as int, surface.height as int);
        assert(surface.height * (surface.width * 4) == surface.width * surface.height * 4)
            by (nonlinear_arith);
    }
    match routine {
        CompressionRoutine::Bc7Routine => {
            let mut dest = alloc_container_data(code, surface.width, surface.height);
            bc7_compress_into(&surface, &mut dest);
            (surface.width, surface.height, dest)
        },
        CompressionRoutine::Bc3Routine => {
            let mut dest = alloc_container_data(code, surface.width, surface.height);
            bc3_compress_into(&surface, &mut dest);
            (surface.width, surface.height, dest)
        },
        CompressionRoutine::IdentityRoutine => {
            let out = vstd::slice::slice_to_vec(surface.data);
            proof {
                assert(surface.width * 4 * surface.height == surface.width * surface.height * 4)
                    by (nonlinear_arith);
            }
            (surface.width, surface.height, out)
        },
    }
}

/// For block-aligned dimensions, 16 bytes per 4x4 block is exactly one byte
/// per pixel: `(w/4) * (h/4) * 16 == w * h`.
pub proof fn lemma_aligned_block_bytes(w: int, h: int)
    requires
        0 <= w,
        0 <= h,
        w % 4 == 0,
        h % 4 == 0,
    ensures
        ((w + 3) / 4) * ((h + 3) / 4) * 16 == w * h,
{
    let a = w / 4;
    let b = h / 4;
    assert(w == 4 * a);
    assert(h == 4 * b);
    assert((w + 3) / 4 == a);
    assert((h + 3) / 4 == b);
    assert(a * b * 16 == (4 * a) * (4 * b)) by (nonlinear_arith);
}

} // verus!
