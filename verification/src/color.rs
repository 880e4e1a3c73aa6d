//! The 16-bit colour type and straight-alpha blending.
//!
//! A `Color` is a packed 5:6:5 red/green/blue value. Channel accessors
//! expand the stored bits to the usual 8-bit range by replicating the top
//! bits into the bottom ones, so that pure black and pure white map to `0`
//! and `255` exactly. Blending interpolates the expanded channels linearly
//! and repacks the result.

use vstd::prelude::*;

verus! {

#[derive(Copy, Clone, Debug, PartialEq, Eq, Structural)]
pub struct Color(pub u16);

/// Stored 5-bit red field.
pub open spec fn spec_r5(c: Color) -> int {
    c.0 as int / 2048
}

/// Stored 6-bit green field.
pub open spec fn spec_g6(c: Color) -> int {
    (c.0 as int / 32) % 64
}

/// Stored 5-bit blue field.
pub open spec fn spec_b5(c: Color) -> int {
    c.0 as int % 32
}

/// 5-bit field expanded to 8 bits (top bits replicated downwards).
pub open spec fn spec_expand5(v: int) -> int {
    v * 8 + v / 4
}

/// 6-bit field expanded to 8 bits.
pub open spec fn spec_expand6(v: int) -> int {
    v * 4 + v / 16
}

/// The expanded 8-bit red channel.
pub open spec fn spec_r(c: Color) -> int {
    spec_expand5(spec_r5(c))
}

/// The expanded 8-bit green channel.
pub open spec fn spec_g(c: Color) -> int {
    spec_expand6(spec_g6(c))
}

/// The expanded 8-bit blue channel.
pub open spec fn spec_b(c: Color) -> int {
    spec_expand5(spec_b5(c))
}

/// Packing of 8-bit channels into the 5:6:5 layout.
pub open spec fn spec_from_rgb(r: int, g: int, b: int) -> Color {
    Color((((r / 8) * 2048 + (g / 4) * 32 + b / 8) as u16))
}

/// Perceptual luminance of the expanded channels, in `0 ..= 255`.
pub open spec fn spec_luminance(c: Color) -> int {
    (spec_r(c) * 299 + spec_g(c) * 587 + spec_b(c) * 114) / 1000
}

/// One blended channel: linear interpolation between `bg` (alpha `0`) and
/// `fg` (alpha `255`).
pub open spec fn spec_blend_chan(fg: int, bg: int, alpha: int) -> int {
    (fg * alpha + bg * (255 - alpha)) / 255
}

/// Straight-alpha compositing of `fg` over `bg`, channel by channel on the
/// expanded values, repacked to 5:6:5.
pub open spec fn spec_blend(bg: Color, fg: Color, alpha: int) -> Color {
    spec_from_rgb(
        spec_blend_chan(spec_r(fg), spec_r(bg), alpha),
        spec_blend_chan(spec_g(fg), spec_g(bg), alpha),
        spec_blend_chan(spec_b(fg), spec_b(bg), alpha),
    )
}

impl Color {
    pub fn from_rgb(r: u8, g: u8, b: u8) -> (c: Color)
        ensures
            c == spec_from_rgb(r as int, g as int, b as int),
    {
        let v: u16 = ((r as u16) / 8) * 2048 + ((g as u16) / 4) * 32 + (b as u16) / 8;
        Color(v)
    }

    /// The expanded 8-bit red channel.
    pub fn r(self) -> (v: u8)
        ensures
            v == spec_r(self),
    {
        let f: u16 = self.0 / 2048;
        (f * 8 + f / 4) as u8
    }

    /// The expanded 8-bit green channel.
    pub fn g(self) -> (v: u8)
        ensures
            v == spec_g(self),
    {
        let f: u16 = (self.0 / 32) % 64;
        (f * 4 + f / 16) as u8
    }

    /// The expanded 8-bit blue channel.
    pub fn b(self) -> (v: u8)
        ensures
            v == spec_b(self),
    {
        let f: u16 = self.0 % 32;
        (f * 8 + f / 4) as u8
    }

    /// Perceptual luminance, in `0 ..= 255`.
    pub fn luminance(self) -> (v: u8)
        ensures
            v == spec_luminance(self),
    {
        let r: u32 = self.r() as u32;
        let g: u32 = self.g() as u32;
        let b: u32 = self.b() as u32;
        ((r * 299 + g * 587 + b * 114) / 1000) as u8
    }

    /// Composites `fg` over `self` with the given alpha: `0` keeps `self`,
    /// `255` replaces it by `fg`.
    pub fn blend(self, fg: Color, alpha: u8) -> (c: Color)
        ensures
            c == spec_blend(self, fg, alpha as int),
    {
        let a: u32 = alpha as u32;
        let na: u32 = 255 - a;
        let fr: u32 = fg.r() as u32;
        let fgr: u32 = fg.g() as u32;
        let fb: u32 = fg.b() as u32;
        let br: u32 = self.r() as u32;
        let bgr: u32 = self.g() as u32;
        let bb: u32 = self.b() as u32;
        proof {
            assert(fr * a <= 65025 && br * na <= 65025 && fgr * a <= 65025 && bgr * na <= 65025
                && fb * a <= 65025 && bb * na <= 65025) by (nonlinear_arith)
                requires
                    fr <= 255 && fgr <= 255 && fb <= 255,
                    br <= 255 && bgr <= 255 && bb <= 255,
                    a <= 255 && na <= 255,
            ;
            lemma_blend_chan_bound(spec_r(fg), spec_r(self), alpha as int);
            lemma_blend_chan_bound(spec_g(fg), spec_g(self), alpha as int);
            lemma_blend_chan_bound(spec_b(fg), spec_b(self), alpha as int);
        }
        let r: u32 = (fr * a + br * na) / 255;
        let g: u32 = (fgr * a + bgr * na) / 255;
        let b: u32 = (fb * a + bb * na) / 255;
        Color::from_rgb(r as u8, g as u8, b as u8)
    }
}

/// A blended channel of 8-bit inputs is again an 8-bit value.
pub proof fn lemma_blend_chan_bound(fg: int, bg: int, alpha: int)
    requires
        0 <= fg <= 255,
        0 <= bg <= 255,
        0 <= alpha <= 255,
    ensures
        0 <= spec_blend_chan(fg, bg, alpha) <= 255,
{
    assert(fg * alpha + bg * (255 - alpha) <= 255 * 255) by (nonlinear_arith)
        requires
            0 <= fg <= 255,
            0 <= bg <= 255,
            0 <= alpha <= 255,
    ;
    assert(fg * alpha + bg * (255 - alpha) >= 0) by (nonlinear_arith)
        requires
            0 <= fg <= 255,
            0 <= bg <= 255,
            0 <= alpha <= 255,
    ;
}

/// Expanding a stored 5-bit field and truncating it back is the identity.
proof fn lemma_expand5_truncate(v: int)
    requires
        0 <= v < 32,
    ensures
        spec_expand5(v) / 8 == v,
        0 <= spec_expand5(v) <= 255,
{
    assert((v * 8 + v / 4) / 8 == v && 0 <= v * 8 + v / 4 <= 255) by (nonlinear_arith)
        requires
            0 <= v < 32,
    ;
}

/// Expanding a stored 6-bit field and truncating it back is the identity.
proof fn lemma_expand6_truncate(v: int)
    requires
        0 <= v < 64,
    ensures
        spec_expand6(v) / 4 == v,
        0 <= spec_expand6(v) <= 255,
{
    assert((v * 4 + v / 16) / 4 == v && 0 <= v * 4 + v / 16 <= 255) by (nonlinear_arith)
        requires
            0 <= v < 64,
    ;
}

/// Law: a colour survives the round trip through its expanded channels.
/// Re-packing `(r(), g(), b())` gives back the very same packed value.
pub proof fn lemma_channel_round_trip(c: Color)
    ensures
        spec_from_rgb(spec_r(c), spec_g(c), spec_b(c)) == c,
{
    let v = c.0 as int;
    let r5 = spec_r5(c);
    let g6 = spec_g6(c);
    let b5 = spec_b5(c);
    lemma_expand5_truncate(r5);
    lemma_expand6_truncate(g6);
    lemma_expand5_truncate(b5);
    assert(v == r5 * 2048 + g6 * 32 + b5) by (nonlinear_arith)
        requires
            r5 == v / 2048,
            g6 == (v / 32) % 64,
            b5 == v % 32,
            0 <= v < 65536,
    ;
}

/// A kept channel: interpolating towards anything with weight `0` returns
/// the background channel, and with weight `255` the foreground channel.
proof fn lemma_blend_chan_ends(fg: int, bg: int)
    ensures
        spec_blend_chan(fg, bg, 0) == bg,
        spec_blend_chan(fg, bg, 255) == fg,
{
    vstd::arithmetic::div_mod::lemma_div_multiples_vanish(bg, 255);
    assert(fg * 0 + bg * (255 - 0) == 255 * bg) by (nonlinear_arith);
    vstd::arithmetic::div_mod::lemma_div_multiples_vanish(fg, 255);
    assert(fg * 255 + bg * (255 - 255) == 255 * fg) by (nonlinear_arith);
}

/// Law: blending with alpha `0` leaves the background unchanged.
pub proof fn lemma_blend_transparent(bg: Color, fg: Color)
    ensures
        spec_blend(bg, fg, 0) == bg,
{
    lemma_blend_chan_ends(spec_r(fg), spec_r(bg));
    lemma_blend_chan_ends(spec_g(fg), spec_g(bg));
    lemma_blend_chan_ends(spec_b(fg), spec_b(bg));
    lemma_channel_round_trip(bg);
}

/// Law: blending with alpha `255` replaces the background by the
/// foreground exactly.
pub proof fn lemma_blend_opaque(bg: Color, fg: Color)
    ensures
        spec_blend(bg, fg, 255) == fg,
{
    lemma_blend_chan_ends(spec_r(fg), spec_r(bg));
    lemma_blend_chan_ends(spec_g(fg), spec_g(bg));
    lemma_blend_chan_ends(spec_b(fg), spec_b(bg));
    lemma_channel_round_trip(fg);
}

/// The expanded channels always lie in `0 ..= 255`.
pub proof fn lemma_chan_bounds(c: Color)
    ensures
        0 <= spec_r(c) <= 255,
        0 <= spec_g(c) <= 255,
        0 <= spec_b(c) <= 255,
{
    lemma_expand5_truncate(spec_r5(c));
    lemma_expand6_truncate(spec_g6(c));
    lemma_expand5_truncate(spec_b5(c));
}

} // verus!
