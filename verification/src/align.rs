//! Block alignment of texture dimensions.
//!
//! Block compression works on 4x4 pixel blocks, so a dimension that is not a
//! multiple of 4 must be rounded up before compression.

use vstd::prelude::*;

verus! {

/// The smallest multiple of 4 that is at least `v`.
pub open spec fn spec_align4(v: int) -> int {
    if v % 4 == 0 {
        v
    } else {
        v + (4 - v % 4)
    }
}

/// Rounds `value` up to the next multiple of `multiple`.
///
/// The bit trick is exact only for powers of two; block compression always
/// asks for 4, so the precondition fixes the multiple to 4.
pub fn align_up(multiple: u32, value: u32) -> (r: u32)
    requires
        multiple == 4,
        value + 3 <= u32::MAX,
    ensures
        r == spec_align4(value as int),
{
    let r = (value + (multiple - 1)) & !(multiple - 1);
    proof {
        assert(r % 4 == 0 && value <= r && r <= value + 3) by (bit_vector)
            requires
                r == ((value + 3) as u32) & (!3u32),
                value <= 0xffff_fffcu32,
        ;
    }
    r
}

/// Aligning is idempotent: aligning an already aligned value changes nothing.
pub proof fn lemma_align4_idempotent(v: int)
    requires
        0 <= v,
    ensures
        spec_align4(spec_align4(v)) == spec_align4(v),
{
}

/// The aligned value is the smallest multiple of 4 at least as large as `v`.
pub proof fn lemma_align4_props(v: int)
    requires
        0 <= v,
    ensures
        spec_align4(v) % 4 == 0,
        v <= spec_align4(v) < v + 4,
        v % 4 == 0 ==> spec_align4(v) == v,
        1 <= v ==> 4 <= spec_align4(v),
{
}

/// Both dimensions can be aligned and the aligned image measured without
/// overflowing the 32-bit sizes the texture container uses, and the aligned
/// image's total bytes stay within the signed 32-bit offsets the
/// block-compression kernels address the surface with.
pub open spec fn spec_dims_ok(w: int, h: int) -> bool {
    &&& w + 3 <= u32::MAX
    &&& h + 3 <= u32::MAX
    &&& spec_align4(w) * 32 <= u32::MAX
    &&& spec_align4(h) * 32 <= u32::MAX
    &&& spec_align4(w) * spec_align4(h) * 4 <= i32::MAX
}

/// Relies on image's `imageops::resize` with the `Lanczos3` filter: it
/// resamples the RGBA8 image to exactly `new_width * new_height` pixels,
/// returning a freshly allocated tightly packed buffer. `RgbaImage::from_raw`
/// accepts the buffer because its length matches the dimensions exactly.
#[verifier::external_body]
fn resize_rgba8(width: u32, height: u32, data: Vec<u8>, new_width: u32, new_height: u32) -> (r: Vec<
    u8,
>)
    requires
        data@.len() == width * height * 4,
        1 <= width,
        1 <= height,
        1 <= new_width,
        1 <= new_height,
        new_width * new_height * 4 <= u32::MAX,
    ensures
        r@.len() == new_width * new_height * 4,
{
    let img = image::RgbaImage::from_raw(width, height, data).unwrap();
    let out = image::imageops::resize(
        &img,
        new_width,
        new_height,
        image::imageops::FilterType::Lanczos3,
    );
    out.into_raw()
}

/// Aligns the dimensions to the 4x4 block grid and, if that changes them,
/// resamples the image to exactly the aligned size with a high-quality
/// filter. An already aligned image passes through untouched: the aligned
/// canvas is only ever a resized version of the original, never a padded
/// crop.
pub fn align_to_blocks(width: u32, height: u32, data: Vec<u8>) -> (r: (u32, u32, Vec<u8>))
    requires
        data@.len() == width * height * 4,
        1 <= width,
        1 <= height,
        width + 3 <= u32::MAX,
        height + 3 <= u32::MAX,
        spec_align4(width as int) * spec_align4(height as int) * 4 <= u32::MAX,
    ensures
        r.0 == spec_align4(width as int),
        r.1 == spec_align4(height as int),
        r.2@.len() == r.0 * r.1 * 4,
        width % 4 == 0 && height % 4 == 0 ==> r.2@ == data@,
{
    let used_width = align_up(4, width);
    let used_height = align_up(4, height);
    proof {
        lemma_align4_props(width as int);
        lemma_align4_props(height as int);
    }
    if used_width == width && used_height == height {
        (width, height, data)
    } else {
        let resized = resize_rgba8(width, height, data, used_width, used_height);
        (used_width, used_height, resized)
    }
}

} // verus!
