//! Format registry: the closed set of compression formats the pipeline can
//! produce, the lookup from a human-supplied name, and the total mappings to
//! the container pixel-format code and to the compression routine.

use vstd::prelude::*;

verus! {

/// The formats the pipeline can produce.
#[derive(Clone, Copy, Debug, PartialEq, Eq, Structural)]
pub enum CompressionFormat {
    /// Raw RGBA8 bytes, unsigned-integer channel interpretation.
    Rgba8,
    /// Raw RGBA8 bytes, normalized-channel interpretation.
    Rgba8Unorm,
    /// BC3 block compression (alpha-capable, normal quality).
    Dxt5,
    /// BC7 block compression (alpha-capable, highest quality).
    Bc7,
}

/// The container-level pixel-format code a payload is stored under.
#[derive(Clone, Copy, Debug, PartialEq, Eq, Structural)]
pub enum PixelFormatCode {
    Bc7UnormSrgb,
    Bc3UnormSrgb,
    Rgba8Uint,
    Rgba8UnormCode,
}

/// The compression routine a format requires.
#[derive(Clone, Copy, Debug, PartialEq, Eq, Structural)]
pub enum CompressionRoutine {
    /// BC7 block compression, ultra-fast preset with alpha support.
    Bc7Routine,
    /// BC3 (DXT5) block compression with alpha support.
    Bc3Routine,
    /// No-op: the buffer already holds the final bytes.
    IdentityRoutine,
}

/// The code of `c` with an ASCII upper-case letter folded to lower case.
pub open spec fn lower_code(c: char) -> u32 {
    if 65 <= c as u32 && c as u32 <= 90 {
        (c as u32 + 32) as u32
    } else {
        c as u32
    }
}

/// Two names are the same up to ASCII case: same length, and the same
/// case-folded code at every position.
pub open spec fn name_eq_ignore_case(s: Seq<char>, t: Seq<char>) -> bool {
    &&& s.len() == t.len()
    &&& forall|i: int| 0 <= i < s.len() ==> lower_code(s[i]) == lower_code(t[i])
}

/// The format a name selects: a case-insensitive lookup of the four known
/// names, and `Bc7` for everything else (a deliberate permissive default).
pub open spec fn spec_format_from_name(s: Seq<char>) -> CompressionFormat {
    if name_eq_ignore_case(s, "rgba8"@) {
        CompressionFormat::Rgba8
    } else if name_eq_ignore_case(s, "rgba8_unorm"@) {
        CompressionFormat::Rgba8Unorm
    } else if name_eq_ignore_case(s, "dxt5"@) {
        CompressionFormat::Dxt5
    } else {
        CompressionFormat::Bc7
    }
}

fn char_lower_code(c: char) -> (r: u32)
    ensures
        r == lower_code(c),
{
    let u = c as u32;
    if 65 <= u && u <= 90 {
        u + 32
    } else {
        u
    }
}

/// Compares two names, treating ASCII upper and lower case as equal.
pub fn eq_ignore_ascii_case(a: &str, b: &str) -> (r: bool)
    ensures
        r == name_eq_ignore_case(a@, b@),
{
    let a_len = a.unicode_len();
    let b_len = b.unicode_len();
    if a_len != b_len {
        return false;
    }
    let mut i: usize = 0;
    while i < a_len
        invariant
            i <= a_len,
            a_len == a@.len(),
            b_len == b@.len(),
            a_len == b_len,
            forall|j: int| 0 <= j < i ==> lower_code(a@[j]) == lower_code(b@[j]),
        decreases a_len - i,
    {
        let ca = a.get_char(i);
        let cb = b.get_char(i);
        if char_lower_code(ca) != char_lower_code(cb) {
            return false;
        }
        i += 1;
    }
    true
}

/// Looks a format up by name, case-insensitively; unrecognized names fall
/// back to `Bc7` rather than failing.
pub fn format_from_name(name: &str) -> (f: CompressionFormat)
    ensures
        f == spec_format_from_name(name@),
{
    if eq_ignore_ascii_case(name, "rgba8") {
        CompressionFormat::Rgba8
    } else if eq_ignore_ascii_case(name, "rgba8_unorm") {
        CompressionFormat::Rgba8Unorm
    } else if eq_ignore_ascii_case(name, "dxt5") {
        CompressionFormat::Dxt5
    } else {
        CompressionFormat::Bc7
    }
}

/// The container pixel-format code of a format: a total, pure mapping.
pub fn container_format_for(format: CompressionFormat) -> (code: PixelFormatCode)
    ensures
        code == spec_container_format_for(format),
{
    match format {
        CompressionFormat::Bc7 => PixelFormatCode::Bc7UnormSrgb,
        CompressionFormat::Dxt5 => PixelFormatCode::Bc3UnormSrgb,
        CompressionFormat::Rgba8 => PixelFormatCode::Rgba8Uint,
        CompressionFormat::Rgba8Unorm => PixelFormatCode::Rgba8UnormCode,
    }
}

pub open spec fn spec_container_format_for(format: CompressionFormat) -> PixelFormatCode {
    match format {
        CompressionFormat::Bc7 => PixelFormatCode::Bc7UnormSrgb,
        CompressionFormat::Dxt5 => PixelFormatCode::Bc3UnormSrgb,
        CompressionFormat::Rgba8 => PixelFormatCode::Rgba8Uint,
        CompressionFormat::Rgba8Unorm => PixelFormatCode::Rgba8UnormCode,
    }
}

/// The compression routine of a format: a total, pure mapping.
pub fn compressor_for(format: CompressionFormat) -> (routine: CompressionRoutine)
    ensures
        routine == spec_compressor_for(format),
{
    match format {
        CompressionFormat::Bc7 => CompressionRoutine::Bc7Routine,
        CompressionFormat::Dxt5 => CompressionRoutine::Bc3Routine,
        CompressionFormat::Rgba8 => CompressionRoutine::IdentityRoutine,
        CompressionFormat::Rgba8Unorm => CompressionRoutine::IdentityRoutine,
    }
}

pub open spec fn spec_compressor_for(format: CompressionFormat) -> CompressionRoutine {
    match format {
        CompressionFormat::Bc7 => CompressionRoutine::Bc7Routine,
        CompressionFormat::Dxt5 => CompressionRoutine::Bc3Routine,
        CompressionFormat::Rgba8 => CompressionRoutine::IdentityRoutine,
        CompressionFormat::Rgba8Unorm => CompressionRoutine::IdentityRoutine,
    }
}

/// Name lookup is case-insensitive: names equal up to ASCII case select the
/// same format.
pub proof fn lemma_format_name_case_insensitive(s: Seq<char>, t: Seq<char>)
    requires
        name_eq_ignore_case(s, t),
    ensures
        spec_format_from_name(s) == spec_format_from_name(t),
{
}

/// An unrecognized name behaves exactly like `"bc7"`: both select `Bc7`.
pub proof fn lemma_unknown_name_defaults_to_bc7(s: Seq<char>)
    requires
        !name_eq_ignore_case(s, "rgba8"@),
        !name_eq_ignore_case(s, "rgba8_unorm"@),
        !name_eq_ignore_case(s, "dxt5"@),
        !name_eq_ignore_case(s, "bc7"@),
    ensures
        spec_format_from_name(s) == CompressionFormat::Bc7,
        spec_format_from_name(s) == spec_format_from_name("bc7"@),
{
    reveal_strlit("bc7");
    reveal_strlit("rgba8");
    reveal_strlit("rgba8_unorm");
    reveal_strlit("dxt5");
}

} // verus!
