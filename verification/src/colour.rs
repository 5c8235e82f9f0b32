//! Packed 32-bit colours and alpha blending.
//!
//! A colour packs its channels as red in bits 0-7, green in bits 8-15,
//! blue in bits 16-23 and alpha in bits 24-31. The blend here is the single
//! place where channels are unpacked and repacked.

use vstd::prelude::*;

verus! {

pub const BLUE: u32 = 0xFFEE2222;
pub const GREEN: u32 = 0xFF22EE22;
pub const RED: u32 = 0xFF2222EE;
pub const YELLOW: u32 = 0xFF33CCCC;
pub const FLOOR: u32 = 0xFF104010;

/// The red channel of a packed colour, bits 0-7.
pub open spec fn red_of(colour: u32) -> u32 {
    colour & 0xFF
}

/// The green channel of a packed colour, bits 8-15.
pub open spec fn green_of(colour: u32) -> u32 {
    (colour & 0xFF_00) >> 8
}

/// The blue channel of a packed colour, bits 16-23.
pub open spec fn blue_of(colour: u32) -> u32 {
    (colour & 0xFF_00_00) >> 16
}

/// The alpha channel of a packed colour, bits 24-31.
pub open spec fn alpha_of(colour: u32) -> u32 {
    (colour & 0xFF_00_00_00) >> 24
}

/// Channels packed back into one colour word.
pub open spec fn pack_channels(r: u32, g: u32, b: u32, a: u32) -> u32 {
    r | (g << 8) | (b << 16) | (a << 24)
}

/// A colour with its alpha byte replaced.
pub open spec fn with_alpha(colour: u32, a: u32) -> u32 {
    (colour & 0x00_FF_FF_FF) | (a << 24)
}

/// One channel of `src` composited over `dst` at source alpha `a`:
/// `(a + 1) * src + (256 - a) * dst`, scaled down by 256.
pub open spec fn blend_channel(a: u32, src: u32, dst: u32) -> u32 {
    (((a + 1) * src + (256 - a) * dst) / 256) as u32
}

/// `colour` alpha-composited over `dst`, channel by channel, with the
/// result forced fully opaque.
pub open spec fn spec_blend(dst: u32, colour: u32) -> u32 {
    let a = alpha_of(colour);
    pack_channels(
        blend_channel(a, red_of(colour), red_of(dst)),
        blend_channel(a, green_of(colour), green_of(dst)),
        blend_channel(a, blue_of(colour), blue_of(dst)),
        0xFF,
    )
}

/// Every unpacked channel fits in a byte.
pub proof fn lemma_channel_bounds(colour: u32)
    ensures
        red_of(colour) <= 255,
        green_of(colour) <= 255,
        blue_of(colour) <= 255,
        alpha_of(colour) <= 255,
{
    assert((colour & 0xFF) <= 255 && ((colour & 0xFF_00) >> 8) <= 255
        && ((colour & 0xFF_00_00) >> 16) <= 255 && ((colour & 0xFF_00_00_00) >> 24) <= 255)
        by (bit_vector);
}

/// Blending a fully opaque colour yields exactly that colour's channels,
/// and blending a fully transparent one leaves the destination's channels,
/// in both cases with the alpha byte forced opaque.
pub proof fn lemma_blend_identity(dst: u32, colour: u32)
    ensures
        alpha_of(colour) == 255 ==> spec_blend(dst, colour) == with_alpha(colour, 0xFF),
        alpha_of(colour) == 0 ==> spec_blend(dst, colour) == with_alpha(dst, 0xFF),
{
    lemma_channel_bounds(colour);
    lemma_channel_bounds(dst);
    assert forall|s: u32, d: u32| s <= 255 && d <= 255 implies blend_channel(255, s, d) == s
        && blend_channel(0, s, d) == d by {
        assert((256 * s + 1 * d) / 256 == s as int) by (nonlinear_arith)
            requires
                s <= 255,
                d <= 255;
        assert((1 * s + 256 * d) / 256 == d as int) by (nonlinear_arith)
            requires
                s <= 255,
                d <= 255;
    }
    assert((colour & 0xFF) | (((colour & 0xFF_00) >> 8) << 8) | (((colour & 0xFF_00_00) >> 16)
        << 16) | (0xFFu32 << 24) == (colour & 0x00_FF_FF_FF) | (0xFFu32 << 24)) by (bit_vector);
    assert((dst & 0xFF) | (((dst & 0xFF_00) >> 8) << 8) | (((dst & 0xFF_00_00) >> 16) << 16)
        | (0xFFu32 << 24) == (dst & 0x00_FF_FF_FF) | (0xFFu32 << 24)) by (bit_vector);
}

} // verus!
