//! Common pixel formats, as four-character codes.

use vstd::prelude::*;
#[allow(unused_imports)]
use crate::utils::spec_fourcc;

verus! {

/// 'BGRA': 8-bit blue, green, red, alpha (the native Syphon format).
pub const BGRA: u32 = 0x4247_5241;

/// 'ARGB': 8-bit alpha, red, green, blue.
pub const ARGB: u32 = 0x4152_4742;

/// 'RGBA': 8-bit red, green, blue, alpha.
pub const RGBA: u32 = 0x5247_4241;

/// 'YUVS': packed 4:2:2 luma/chroma.
pub const YUVS: u32 = 0x5955_5653;

/// Each named format is the fourcc code of its four letters (in ASCII:
/// 'A' = 65, 'B' = 66, 'G' = 71, 'R' = 82, 'S' = 83, 'U' = 85, 'V' = 86,
/// 'Y' = 89).
pub proof fn lemma_pixel_format_codes()
    ensures
        BGRA == spec_fourcc(66, 71, 82, 65),
        ARGB == spec_fourcc(65, 82, 71, 66),
        RGBA == spec_fourcc(82, 71, 66, 65),
        YUVS == spec_fourcc(89, 85, 86, 83),
{
}

} // verus!
