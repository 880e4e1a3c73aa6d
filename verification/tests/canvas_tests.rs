use framecore::bitmap::{Bitmap, BitmapView};
use framecore::format::BitmapFormat;
use framecore::canvas::Rgb565Canvas;
use framecore::color::Color;
use framecore::geometry::{Offset, Point, Rect};
use framecore::viewport::Viewport;

fn rect(x0: i16, y0: i16, x1: i16, y1: i16) -> Rect {
    Rect::new(Point::new(x0, y0), Point::new(x1, y1))
}

fn canvas_10x10() -> Rgb565Canvas {
    Rgb565Canvas::new(Offset::new(10, 10), None, vec![0u8; 200]).unwrap()
}

fn all_rows(c: &mut Rgb565Canvas) -> Vec<Vec<u16>> {
    let mut rows = Vec::new();
    let mut y: i16 = 0;
    while let Some(row) = c.row_mut(y) {
        rows.push(row);
        y += 1;
    }
    rows
}

#[test]
fn new_mut_rejects_buffer_shorter_than_one_row() {
    // One row of 10 pixels needs 20 bytes.
    assert!(Rgb565Canvas::new(Offset::new(10, 10), None, vec![0u8; 19]).is_none());
    assert!(Bitmap::new_mut(BitmapFormat::RGB565, None, Offset::new(10, 10), None, vec![0u8; 19])
        .is_none());
    assert!(Bitmap::new_mut(BitmapFormat::MONO1, None, Offset::new(9, 1), None, vec![0u8; 1])
        .is_none());
}

#[test]
fn new_mut_exact_multiple_gives_buffer_height() {
    // 200 bytes hold exactly 10 rows of 10 pixels.
    let b = Bitmap::new_mut(BitmapFormat::RGB565, None, Offset::new(10, 10), None, vec![0u8; 200])
        .unwrap();
    assert_eq!(b.height(), 10);
    // A taller request shrinks to the buffer's rows when the minimum
    // height is reached: 200 bytes / 20 per row = 10 rows.
    let b2 = Bitmap::new_mut(
        BitmapFormat::RGB565,
        None,
        Offset::new(10, 100),
        Some(5),
        vec![0u8; 200],
    )
    .unwrap();
    assert_eq!(b2.height(), 10);
    // Without the minimum the same request fails.
    assert!(Bitmap::new_mut(BitmapFormat::RGB565, None, Offset::new(10, 100), None, vec![0u8; 200])
        .is_none());
    // A minimum the buffer cannot reach fails too.
    assert!(Bitmap::new_mut(
        BitmapFormat::RGB565,
        None,
        Offset::new(10, 100),
        Some(11),
        vec![0u8; 200]
    )
    .is_none());
}

#[test]
fn new_mut_explicit_height_overrides_size() {
    let b = Bitmap::new_mut(
        BitmapFormat::RGB565,
        Some(3),
        Offset::new(10, 10),
        None,
        vec![0u8; 200],
    )
    .unwrap();
    assert_eq!(b.height(), 3);
    assert_eq!(b.width(), 10);
    assert_eq!(b.stride(), 20);
}

#[test]
fn bitmap_row_access() {
    let b = Bitmap::new_mut(BitmapFormat::RGB565, None, Offset::new(4, 2), None, vec![7u8; 16])
        .unwrap();
    assert!(b.row(0).is_some());
    assert!(b.row(1).is_some());
    assert!(b.row(2).is_none());
    assert!(b.row(-1).is_none());
    assert_eq!(b.row(0).unwrap(), &vec![7u8; 8]);
}

#[test]
fn canvas_row_mut_bounds() {
    let mut c = canvas_10x10();
    assert!(c.row_mut(0).is_some());
    assert!(c.row_mut(9).is_some());
    assert!(c.row_mut(10).is_none());
    assert!(c.row_mut(-1).is_none());
    assert_eq!(c.row_mut(0).unwrap().len(), 10);
}

#[test]
fn fill_rect_opaque_red_covers_canvas() {
    let mut c = canvas_10x10();
    let red = Color::from_rgb(255, 0, 0);
    c.fill_rect(rect(0, 0, 10, 10), red, 255);
    for row in all_rows(&mut c) {
        assert_eq!(row, vec![0xF800u16; 10]);
    }
}

#[test]
fn end_to_end_transparent_blend_leaves_fill_unchanged() {
    // Fill a 10 by 10 canvas with opaque red, then blend a fully
    // transparent rectangle over it: the buffer is unchanged.
    let mut c = canvas_10x10();
    let red = Color::from_rgb(255, 0, 0);
    c.fill_rect(rect(0, 0, 10, 10), red, 255);
    let before = all_rows(&mut c);

    // A transparent fill changes nothing.
    c.fill_rect(rect(2, 2, 8, 8), Color::from_rgb(0, 0, 255), 0);
    assert_eq!(all_rows(&mut c), before);

    // A fully transparent 32-bit source blends to nothing as well.
    let src = Bitmap::new_mut(
        BitmapFormat::RGBA8888,
        None,
        Offset::new(10, 10),
        None,
        vec![0u8; 400],
    )
    .unwrap();
    c.blend_bitmap(rect(0, 0, 10, 10), BitmapView::new(&src));
    assert_eq!(all_rows(&mut c), before);
}

#[test]
fn end_to_end_draw_outside_clip_is_a_no_op() {
    // With the viewport clipped to (0,0)-(5,5), a draw entirely outside
    // the clip leaves the buffer untouched.
    let mut c = canvas_10x10();
    let red = Color::from_rgb(255, 0, 0);
    c.fill_rect(rect(0, 0, 10, 10), red, 255);
    let before = all_rows(&mut c);

    c.set_viewport(Viewport::new(rect(0, 0, 5, 5)));
    c.fill_rect(rect(6, 6, 9, 9), Color::from_rgb(0, 255, 0), 255);
    assert_eq!(all_rows(&mut c), before);
    c.draw_pixel(Point::new(7, 7), Color::from_rgb(0, 255, 0));
    assert_eq!(all_rows(&mut c), before);
}

#[test]
fn fill_rect_respects_clip_boundary() {
    let mut c = canvas_10x10();
    c.set_viewport(Viewport::new(rect(0, 0, 5, 5)));
    c.fill_rect(rect(3, 3, 8, 8), Color::from_rgb(255, 255, 255), 255);
    c.set_viewport(Viewport::new(rect(0, 0, 10, 10)));
    for (y, row) in all_rows(&mut c).into_iter().enumerate() {
        for (x, px) in row.into_iter().enumerate() {
            let inside = (3..5).contains(&x) && (3..5).contains(&y);
            assert_eq!(px, if inside { 0xFFFF } else { 0x0000 }, "pixel ({x}, {y})");
        }
    }
}

#[test]
fn viewport_origin_translates_draw_calls() {
    let mut c = canvas_10x10();
    let vp = c.viewport().with_origin(Offset::new(4, 4));
    c.set_viewport(vp);
    c.draw_pixel(Point::new(1, 2), Color::from_rgb(255, 255, 255));
    let rows = all_rows(&mut c);
    assert_eq!(rows[6][5], 0xFFFF);
    let lit: usize = rows.iter().map(|r| r.iter().filter(|&&p| p != 0).count()).sum();
    assert_eq!(lit, 1);
}

#[test]
fn draw_bitmap_copies_source_pixels() {
    let mut src_canvas = Rgb565Canvas::new(Offset::new(4, 4), None, vec![0u8; 32]).unwrap();
    src_canvas.fill_rect(rect(0, 0, 4, 4), Color::from_rgb(0, 0, 255), 255);
    let mut c = canvas_10x10();
    {
        let view = src_canvas.view();
        c.draw_bitmap(rect(2, 3, 6, 7), view);
    }
    let rows = all_rows(&mut c);
    for y in 0..10 {
        for x in 0..10 {
            let inside = (2..6).contains(&x) && (3..7).contains(&y);
            assert_eq!(rows[y][x], if inside { 0x001F } else { 0x0000 });
        }
    }
}

#[test]
fn blend_pixel_composites_in_place() {
    let mut c = canvas_10x10();
    c.fill_rect(rect(0, 0, 10, 10), Color::from_rgb(0, 0, 0), 255);
    c.blend_pixel(Point::new(4, 4), Color::from_rgb(255, 255, 255), 128);
    let rows = all_rows(&mut c);
    assert_eq!(rows[4][4], 0x8410);
    assert_eq!(rows[4][5], 0x0000);
}

#[test]
fn write_row_replaces_one_row() {
    let mut c = canvas_10x10();
    let pixels = vec![0xABCDu16; 10];
    assert!(c.write_row(3, &pixels));
    assert!(!c.write_row(10, &pixels));
    let rows = all_rows(&mut c);
    assert_eq!(rows[3], pixels);
    assert_eq!(rows[2], vec![0u16; 10]);
    assert_eq!(rows[4], vec![0u16; 10]);
}

#[test]
fn set_viewport_reclips_to_canvas_bounds() {
    let mut c = canvas_10x10();
    c.set_viewport(Viewport::new(rect(-5, -5, 50, 50)));
    assert_eq!(c.viewport().clip, rect(0, 0, 10, 10));
}

#[test]
fn mono1_bitmap_packs_one_bit_per_pixel() {
    let mut b =
        Bitmap::new_mut(BitmapFormat::MONO1, None, Offset::new(12, 2), None, vec![0u8; 4]).unwrap();
    assert_eq!(b.stride(), 2);
    b.set_px(0, 0, 1);
    b.set_px(3, 0, 1);
    b.set_px(11, 0, 1);
    assert_eq!(b.get_px(0, 0), 1);
    assert_eq!(b.get_px(3, 0), 1);
    assert_eq!(b.get_px(11, 0), 1);
    // Neighbouring pixels in the same bytes stay clear.
    for x in [1usize, 2, 4, 5, 6, 7, 8, 9, 10] {
        assert_eq!(b.get_px(x, 0), 0, "pixel {x}");
    }
    // The second row is untouched.
    for x in 0..12 {
        assert_eq!(b.get_px(x, 1), 0);
    }
    // Clearing a bit leaves the others alone.
    b.set_px(3, 0, 0);
    assert_eq!(b.get_px(3, 0), 0);
    assert_eq!(b.get_px(0, 0), 1);
    assert_eq!(b.get_px(11, 0), 1);
}

#[test]
fn mono4_bitmap_packs_two_pixels_per_byte() {
    let mut b =
        Bitmap::new_mut(BitmapFormat::MONO4, None, Offset::new(5, 1), None, vec![0u8; 3]).unwrap();
    assert_eq!(b.stride(), 3);
    b.set_px(0, 0, 0xA);
    b.set_px(1, 0, 0x5);
    b.set_px(4, 0, 0xF);
    assert_eq!(b.get_px(0, 0), 0xA);
    assert_eq!(b.get_px(1, 0), 0x5);
    assert_eq!(b.get_px(2, 0), 0);
    assert_eq!(b.get_px(3, 0), 0);
    assert_eq!(b.get_px(4, 0), 0xF);
    b.set_px(0, 0, 0x3);
    assert_eq!(b.get_px(0, 0), 0x3);
    assert_eq!(b.get_px(1, 0), 0x5);
}

#[test]
fn rgba_bitmap_stores_four_bytes_per_pixel() {
    let mut b =
        Bitmap::new_mut(BitmapFormat::RGBA8888, None, Offset::new(2, 2), None, vec![0u8; 16])
            .unwrap();
    b.set_px(1, 0, 0xFF00_1234);
    assert_eq!(b.get_px(1, 0), 0xFF00_1234);
    assert_eq!(b.get_px(0, 0), 0);
    assert_eq!(b.get_px(0, 1), 0);
    assert_eq!(b.get_px(1, 1), 0);
}
