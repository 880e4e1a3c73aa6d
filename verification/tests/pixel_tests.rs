use framecore::color::Color;
use framecore::format::{
    alpha32, pack16, pack32, pack_mono1, pack_mono4, unpack16, unpack32, unpack_mono1,
    unpack_mono4, BitmapFormat,
};

#[test]
fn color_packing_from_rgb() {
    assert_eq!(Color::from_rgb(0, 0, 0), Color(0x0000));
    assert_eq!(Color::from_rgb(255, 255, 255), Color(0xFFFF));
    assert_eq!(Color::from_rgb(255, 0, 0), Color(0xF800));
    assert_eq!(Color::from_rgb(0, 255, 0), Color(0x07E0));
    assert_eq!(Color::from_rgb(0, 0, 255), Color(0x001F));
}

#[test]
fn color_channels_expand_to_full_range() {
    let white = Color(0xFFFF);
    assert_eq!((white.r(), white.g(), white.b()), (255, 255, 255));
    let black = Color(0x0000);
    assert_eq!((black.r(), black.g(), black.b()), (0, 0, 0));
    let red = Color(0xF800);
    assert_eq!((red.r(), red.g(), red.b()), (255, 0, 0));
}

#[test]
fn color_luminance_ends() {
    assert_eq!(Color(0xFFFF).luminance(), 255);
    assert_eq!(Color(0x0000).luminance(), 0);
}

#[test]
fn rgb565_pixel_round_trip() {
    for p in [0x0000u16, 0xFFFF, 0xF800, 0x07E0, 0x001F, 0x1234, 0xABCD] {
        assert_eq!(pack16(unpack16(p)), p);
    }
    let c = Color::from_rgb(100, 150, 200);
    assert_eq!(unpack16(pack16(c)), c);
}

#[test]
fn rgba8888_pixel_round_trip() {
    for (r, g, b) in [(0u8, 0u8, 0u8), (255, 255, 255), (12, 200, 99)] {
        let c = Color::from_rgb(r, g, b);
        let p = pack32(c);
        assert_eq!(unpack32(p), c);
        assert_eq!(alpha32(p), 255);
    }
    // A transparent pixel keeps its colour bytes and reads back alpha 0.
    assert_eq!(alpha32(0x00FF_0000), 0);
}

#[test]
fn mono1_pixel_round_trip() {
    assert_eq!(pack_mono1(unpack_mono1(0)), 0);
    assert_eq!(pack_mono1(unpack_mono1(1)), 1);
    assert_eq!(pack_mono1(Color(0xFFFF)), 1);
    assert_eq!(pack_mono1(Color(0x0000)), 0);
}

#[test]
fn mono4_pixel_round_trip() {
    for p in 0u8..16 {
        assert_eq!(pack_mono4(unpack_mono4(p)), p);
    }
}

#[test]
fn blend_alpha_zero_keeps_background() {
    let cases = [
        (Color(0xF800), Color(0x07E0)),
        (Color(0x0000), Color(0xFFFF)),
        (Color(0x1234), Color(0xABCD)),
        (Color(0x5555), Color(0x5555)),
    ];
    for (bg, fg) in cases {
        assert_eq!(bg.blend(fg, 0), bg);
    }
}

#[test]
fn blend_alpha_full_replaces_with_foreground() {
    let cases = [
        (Color(0xF800), Color(0x07E0)),
        (Color(0x0000), Color(0xFFFF)),
        (Color(0x1234), Color(0xABCD)),
    ];
    for (bg, fg) in cases {
        assert_eq!(bg.blend(fg, 255), fg);
    }
}

#[test]
fn blend_midpoint_interpolates() {
    // Half-blending white over black: each channel is (255 * 128) / 255
    // = 128, and 128 packs as 0x8410.
    let mid = Color(0x0000).blend(Color(0xFFFF), 128);
    assert_eq!(mid, Color(0x8410));
}

#[test]
fn row_bytes_per_format() {
    assert_eq!(BitmapFormat::RGB565.row_bytes(240), 480);
    assert_eq!(BitmapFormat::RGBA8888.row_bytes(240), 960);
    assert_eq!(BitmapFormat::MONO1.row_bytes(8), 1);
    assert_eq!(BitmapFormat::MONO1.row_bytes(9), 2);
    assert_eq!(BitmapFormat::MONO4.row_bytes(9), 5);
}
