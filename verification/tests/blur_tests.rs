use framecore::blur::{acquire_blur_window, blur_region};
use framecore::cache::{Arena, DrawingCache};
use framecore::canvas::Rgb565Canvas;
use framecore::color::Color;
use framecore::geometry::{Offset, Point, Rect};

fn rect(x0: i16, y0: i16, x1: i16, y1: i16) -> Rect {
    Rect::new(Point::new(x0, y0), Point::new(x1, y1))
}

#[test]
fn arena_claims_until_capacity() {
    let mut a = Arena::new(100);
    assert!(a.claim(60));
    assert_eq!(a.used(), 60);
    assert!(a.claim(40));
    assert_eq!(a.used(), 100);
    assert!(!a.claim(1));
    assert_eq!(a.used(), 100);
    a.reset();
    assert_eq!(a.used(), 0);
    assert_eq!(a.capacity(), 100);
}

#[test]
fn cache_arenas_are_independent() {
    let mut cache = DrawingCache::new(100, 50);
    assert!(cache.claim_scratch(100));
    assert!(!cache.claim_scratch(1));
    assert!(cache.claim_blur(50));
    assert!(!cache.claim_blur(1));
    cache.reset();
    assert!(cache.claim_blur(50));
}

#[test]
fn blur_window_acquisition_is_a_hard_capacity_bound() {
    // A 4-wide radius-2 window needs (2*2+1)*4*2 + 4*4 = 56 bytes.
    let mut cache = DrawingCache::new(0, 56);
    let w = acquire_blur_window(&mut cache, 4, 8, 2);
    assert!(w.is_some());
    // The arena is now exhausted: a second window is refused.
    assert!(acquire_blur_window(&mut cache, 4, 8, 2).is_none());

    let mut small = DrawingCache::new(0, 55);
    assert!(acquire_blur_window(&mut small, 4, 8, 2).is_none());
}

#[test]
fn blur_handshake_is_causal_and_emits_every_row_once() {
    // Height 8, radius 2: every row is popped exactly once, in strictly
    // increasing order, and a row pops only after enough look-ahead rows
    // went in.
    let mut cache = DrawingCache::new(0, 16384);
    let mut w = acquire_blur_window(&mut cache, 4, 8, 2).unwrap();

    // Causality: nothing can pop before radius + 1 rows are pushed.
    assert_eq!(w.push_ready(), Some(0));
    assert!(w.pop_ready().is_none());
    w.push(&vec![100u16; 4]);
    assert!(w.pop_ready().is_none());
    w.push(&vec![100u16; 4]);
    assert!(w.pop_ready().is_none());
    w.push(&vec![100u16; 4]);
    assert_eq!(w.pop_ready(), Some(0));

    let mut popped_order = vec![];
    loop {
        if let Some(_y) = w.push_ready() {
            w.push(&vec![100u16; 4]);
        }
        if let Some(y) = w.pop_ready() {
            let (index, row) = w.pop();
            assert_eq!(index, y);
            assert_eq!(row.len(), 4);
            // A constant image blurs to the same constant.
            assert_eq!(row, vec![100u16; 4]);
            popped_order.push(index);
            if index + 1 == 8 {
                break;
            }
        }
    }
    assert_eq!(popped_order, (0..8).collect::<Vec<usize>>());
}

#[test]
fn blur_region_emits_one_row_per_source_row() {
    let mut cache = DrawingCache::new(0, 16384);
    let mut w = acquire_blur_window(&mut cache, 3, 9, 1).unwrap();
    let src = vec![vec![500u16; 3]; 9];
    let out = blur_region(&mut w, &src);
    assert_eq!(out.len(), 9);
    for row in &out {
        assert_eq!(row, &vec![500u16; 3]);
    }
}

#[test]
fn blur_window_never_holds_more_than_its_capacity() {
    let mut cache = DrawingCache::new(0, 16384);
    let mut w = acquire_blur_window(&mut cache, 2, 30, 2).unwrap();
    let src = vec![vec![9u16; 2]; 30];
    let mut pushed: usize = 0;
    let mut popped: usize = 0;
    loop {
        if let Some(_) = w.push_ready() {
            w.push(&src[pushed]);
            pushed += 1;
            // The engine never runs more than 2 * radius + 1 rows ahead
            // of the reader.
            assert!(pushed - popped <= 2 * 2 + 1);
        }
        if let Some(y) = w.pop_ready() {
            let (index, _row) = w.pop();
            assert_eq!(index, y);
            popped += 1;
            if index + 1 == 30 {
                break;
            }
        }
    }
    assert_eq!(pushed, 30);
    assert_eq!(popped, 30);
}

#[test]
fn canvas_blur_of_constant_region_keeps_it() {
    let mut c = Rgb565Canvas::new(Offset::new(10, 10), None, vec![0u8; 200]).unwrap();
    let red = Color::from_rgb(255, 0, 0);
    c.fill_rect(rect(0, 0, 10, 10), red, 255);
    let mut cache = DrawingCache::new(40960, 16384);
    c.blur_rect(rect(0, 0, 10, 10), 2, &mut cache);
    let mut y: i16 = 0;
    while let Some(row) = c.row_mut(y) {
        assert_eq!(row, vec![0xF800u16; 10]);
        y += 1;
    }
}

#[test]
fn canvas_blur_too_small_region_is_a_no_op() {
    let mut c = Rgb565Canvas::new(Offset::new(10, 10), None, vec![0u8; 200]).unwrap();
    c.fill_rect(rect(0, 0, 10, 10), Color::from_rgb(255, 0, 0), 255);
    let mut cache = DrawingCache::new(40960, 16384);
    // Height 3 does not exceed 2 * 2 - 1 = 3: too small to blur.
    c.blur_rect(rect(0, 0, 10, 3), 2, &mut cache);
    let mut y: i16 = 0;
    while let Some(row) = c.row_mut(y) {
        assert_eq!(row, vec![0xF800u16; 10]);
        y += 1;
    }
}

#[test]
fn canvas_blur_without_scratch_leaves_region_undrawn() {
    let mut c = Rgb565Canvas::new(Offset::new(10, 10), None, vec![0u8; 200]).unwrap();
    c.fill_rect(rect(0, 0, 10, 10), Color::from_rgb(0, 255, 0), 255);
    let mut cache = DrawingCache::new(0, 8);
    c.blur_rect(rect(0, 0, 10, 10), 2, &mut cache);
    let mut y: i16 = 0;
    while let Some(row) = c.row_mut(y) {
        assert_eq!(row, vec![0x07E0u16; 10]);
        y += 1;
    }
}

#[test]
fn blur_averages_a_sharp_edge() {
    // A column of bright rows above dark rows: after the blur the middle
    // rows take intermediate values, and every value stays within the
    // original range.
    let mut cache = DrawingCache::new(0, 16384);
    let mut w = acquire_blur_window(&mut cache, 1, 10, 1).unwrap();
    let mut src = vec![vec![900u16; 1]; 5];
    src.extend(vec![vec![0u16; 1]; 5]);
    let out = blur_region(&mut w, &src);
    assert_eq!(out.len(), 10);
    assert!(out[0][0] >= out[9][0]);
    for row in &out {
        assert!(row[0] <= 900);
    }
    // The row on the bright side of the edge already mixes in a dark row.
    assert!(out[4][0] < 900);
    assert!(out[5][0] > 0);
}

#[test]
fn blur_exact_averages_on_a_ramp() {
    // Width 1, radius 1, rows 0 / 300 / 600: each output is the average
    // of the rows the window holds when it is emitted.
    let mut cache = DrawingCache::new(0, 16384);
    let mut w = acquire_blur_window(&mut cache, 1, 3, 1).unwrap();
    let src = vec![vec![0u16], vec![300u16], vec![600u16]];
    let out = blur_region(&mut w, &src);
    assert_eq!(out, vec![vec![150u16], vec![300u16], vec![450u16]]);
}

#[test]
fn canvas_blur_mixes_across_an_edge_exactly() {
    // White rows above black rows, radius 2: after the blur each pixel is
    // the average of its clipped 5-by-5 neighbourhood.
    let mut c = Rgb565Canvas::new(Offset::new(10, 10), None, vec![0u8; 200]).unwrap();
    c.fill_rect(rect(0, 0, 10, 5), Color::from_rgb(255, 255, 255), 255);
    c.fill_rect(rect(0, 5, 10, 10), Color::from_rgb(0, 0, 0), 255);
    let mut cache = DrawingCache::new(40960, 16384);
    c.blur_rect(rect(0, 0, 10, 10), 2, &mut cache);

    let top = c.row_mut(0).unwrap();
    // Rows 0..3 are all white, so the top row stays white.
    assert_eq!(top[4], 0xFFFF);
    // At the edge, three white rows and two black ones mix:
    // 15 * 65535 / 25 = 39321.
    let row4 = c.row_mut(4).unwrap();
    assert_eq!(row4[4], 39321);
    // Deep in the black half only black rows remain.
    let bottom = c.row_mut(9).unwrap();
    assert_eq!(bottom[4], 0);
}
