//! The fixed set of pixel encodings the display hardware understands, and
//! the packing rule of each.
//!
//! Stored pixels are modelled as plain integers: a 16-bit word for
//! `RGB565`, a 32-bit word for `RGBA8888`, one bit for `MONO1` and a
//! 4-bit luminance for `MONO4`. Packing a colour and unpacking the stored
//! pixel again returns the original colour up to the format's precision;
//! unpacking a stored pixel and packing the result is exact.

use vstd::prelude::*;

use crate::color::{
    lemma_chan_bounds, lemma_channel_round_trip, spec_from_rgb, spec_luminance, Color,
};

verus! {

#[derive(Copy, Clone, Debug, PartialEq, Eq, Structural)]
pub enum BitmapFormat {
    /// One bit per pixel, eight pixels per byte, least significant bit first.
    MONO1,
    /// Four bits of luminance per pixel, two pixels per byte, low nibble first.
    MONO4,
    /// 16 bits per pixel, 5:6:5 red/green/blue, little endian.
    RGB565,
    /// 32 bits per pixel, alpha in the top byte, little endian.
    RGBA8888,
}

/// Bytes needed to store one row of `width` pixels.
pub open spec fn spec_row_bytes(format: BitmapFormat, width: int) -> int {
    match format {
        BitmapFormat::MONO1 => (width + 7) / 8,
        BitmapFormat::MONO4 => (width + 1) / 2,
        BitmapFormat::RGB565 => width * 2,
        BitmapFormat::RGBA8888 => width * 4,
    }
}

impl BitmapFormat {
    /// Bytes needed to store one row of `width` pixels.
    pub fn row_bytes(self, width: usize) -> (n: usize)
        requires
            width <= 32767,
        ensures
            n == spec_row_bytes(self, width as int),
    {
        match self {
            BitmapFormat::MONO1 => (width + 7) / 8,
            BitmapFormat::MONO4 => (width + 1) / 2,
            BitmapFormat::RGB565 => width * 2,
            BitmapFormat::RGBA8888 => width * 4,
        }
    }
}

/// A 16-bit pixel is the packed colour itself.
pub open spec fn spec_pack16(c: Color) -> int {
    c.0 as int
}

pub open spec fn spec_unpack16(p: int) -> Color {
    Color(p as u16)
}

/// A 32-bit pixel carries the expanded channels with an opaque alpha byte.
pub open spec fn spec_pack32(c: Color) -> int {
    0xFF000000 + crate::color::spec_r(c) * 0x10000 + crate::color::spec_g(c) * 0x100
        + crate::color::spec_b(c)
}

pub open spec fn spec_unpack32(p: int) -> Color {
    spec_from_rgb((p / 0x10000) % 0x100, (p / 0x100) % 0x100, p % 0x100)
}

/// The alpha byte of a 32-bit pixel.
pub open spec fn spec_alpha32(p: int) -> int {
    (p / 0x1000000) % 0x100
}

/// A 1-bit pixel: `1` for light colours, `0` for dark ones.
pub open spec fn spec_pack_mono1(c: Color) -> int {
    if spec_luminance(c) >= 128 {
        1int
    } else {
        0int
    }
}

pub open spec fn spec_unpack_mono1(p: int) -> Color {
    if p == 0 {
        spec_from_rgb(0, 0, 0)
    } else {
        spec_from_rgb(255, 255, 255)
    }
}

/// A 4-bit pixel: the top four bits of the luminance.
pub open spec fn spec_pack_mono4(c: Color) -> int {
    spec_luminance(c) / 16
}

/// A 4-bit luminance expands to the grey colour with that brightness.
pub open spec fn spec_unpack_mono4(p: int) -> Color {
    spec_from_rgb(p * 17, p * 17, p * 17)
}

pub fn pack16(c: Color) -> (p: u16)
    ensures
        p == spec_pack16(c),
{
    c.0
}

pub fn unpack16(p: u16) -> (c: Color)
    ensures
        c == spec_unpack16(p as int),
{
    Color(p)
}

pub fn pack32(c: Color) -> (p: u32)
    ensures
        p == spec_pack32(c),
{
    0xFF000000u32 + (c.r() as u32) * 0x10000 + (c.g() as u32) * 0x100 + (c.b() as u32)
}

pub fn unpack32(p: u32) -> (c: Color)
    ensures
        c == spec_unpack32(p as int),
{
    let r: u32 = (p / 0x10000) % 0x100;
    let g: u32 = (p / 0x100) % 0x100;
    let b: u32 = p % 0x100;
    Color::from_rgb(r as u8, g as u8, b as u8)
}

/// The alpha byte of a 32-bit pixel.
pub fn alpha32(p: u32) -> (a: u8)
    ensures
        a == spec_alpha32(p as int),
{
    ((p / 0x1000000) % 0x100) as u8
}

pub fn pack_mono1(c: Color) -> (p: u8)
    ensures
        p == spec_pack_mono1(c),
{
    if c.luminance() >= 128 {
        1
    } else {
        0
    }
}

pub fn unpack_mono1(p: u8) -> (c: Color)
    ensures
        c == spec_unpack_mono1(p as int),
{
    if p == 0 {
        Color::from_rgb(0, 0, 0)
    } else {
        Color::from_rgb(255, 255, 255)
    }
}

pub fn pack_mono4(c: Color) -> (p: u8)
    ensures
        p == spec_pack_mono4(c),
{
    c.luminance() / 16
}

pub fn unpack_mono4(p: u8) -> (c: Color)
    requires
        p < 16,
    ensures
        c == spec_unpack_mono4(p as int),
{
    let v: u8 = p * 17;
    Color::from_rgb(v, v, v)
}

/// Law: a stored 16-bit pixel survives unpacking and re-packing exactly,
/// and a colour survives packing and unpacking exactly.
pub proof fn lemma_round_trip_rgb565(c: Color, p: int)
    ensures
        spec_unpack16(spec_pack16(c)) == c,
        0 <= p < 0x10000 ==> spec_pack16(spec_unpack16(p)) == p,
{
}

/// Law: a colour survives the trip through a 32-bit pixel exactly, and the
/// alpha byte of a packed pixel reads back as opaque.
pub proof fn lemma_round_trip_rgba8888(c: Color)
    ensures
        spec_unpack32(spec_pack32(c)) == c,
        spec_alpha32(spec_pack32(c)) == 255,
{
    lemma_chan_bounds(c);
    let r = crate::color::spec_r(c);
    let g = crate::color::spec_g(c);
    let b = crate::color::spec_b(c);
    let p = spec_pack32(c);
    assert((p / 0x10000) % 0x100 == r && (p / 0x100) % 0x100 == g && p % 0x100 == b && (p
        / 0x1000000) % 0x100 == 255) by (nonlinear_arith)
        requires
            p == 0xFF000000 + r * 0x10000 + g * 0x100 + b,
            0 <= r <= 255,
            0 <= g <= 255,
            0 <= b <= 255,
    ;
    lemma_channel_round_trip(c);
}

/// Law: a stored 1-bit pixel survives unpacking and re-packing: pure black
/// stays `0`, pure white stays `1`.
pub proof fn lemma_round_trip_mono1(p: int)
    requires
        0 <= p < 2,
    ensures
        spec_pack_mono1(spec_unpack_mono1(p)) == p,
{
    assert(spec_luminance(spec_from_rgb(0, 0, 0)) == 0);
    assert(spec_luminance(spec_from_rgb(255, 255, 255)) == 255);
}

/// Law: a stored 4-bit luminance survives unpacking to its grey colour and
/// re-packing exactly.
#[verifier::rlimit(100)]
pub proof fn lemma_round_trip_mono4(p: int)
    requires
        0 <= p < 16,
    ensures
        spec_pack_mono4(spec_unpack_mono4(p)) == p,
{
    assert(spec_pack_mono4(spec_unpack_mono4(0)) == 0);
    assert(spec_pack_mono4(spec_unpack_mono4(1)) == 1);
    assert(spec_pack_mono4(spec_unpack_mono4(2)) == 2);
    assert(spec_pack_mono4(spec_unpack_mono4(3)) == 3);
    assert(spec_pack_mono4(spec_unpack_mono4(4)) == 4);
    assert(spec_pack_mono4(spec_unpack_mono4(5)) == 5);
    assert(spec_pack_mono4(spec_unpack_mono4(6)) == 6);
    assert(spec_pack_mono4(spec_unpack_mono4(7)) == 7);
    assert(spec_pack_mono4(spec_unpack_mono4(8)) == 8);
    assert(spec_pack_mono4(spec_unpack_mono4(9)) == 9);
    assert(spec_pack_mono4(spec_unpack_mono4(10)) == 10);
    assert(spec_pack_mono4(spec_unpack_mono4(11)) == 11);
    assert(spec_pack_mono4(spec_unpack_mono4(12)) == 12);
    assert(spec_pack_mono4(spec_unpack_mono4(13)) == 13);
    assert(spec_pack_mono4(spec_unpack_mono4(14)) == 14);
    assert(spec_pack_mono4(spec_unpack_mono4(15)) == 15);
}

} // verus!
