use framecore::geometry::{Offset, Point, Rect};
use framecore::viewport::Viewport;

fn rect(x0: i16, y0: i16, x1: i16, y1: i16) -> Rect {
    Rect::new(Point::new(x0, y0), Point::new(x1, y1))
}

#[test]
fn rect_width_height_size() {
    let r = rect(2, 3, 10, 8);
    assert_eq!(r.width(), 8);
    assert_eq!(r.height(), 5);
    let s = r.size();
    assert_eq!((s.x, s.y), (8, 5));
    assert!(!r.is_empty());
    assert!(rect(5, 5, 5, 9).is_empty());
    let c = r.center();
    assert_eq!((c.x, c.y), (6, 5));
}

#[test]
fn rect_translate_and_contains() {
    let r = rect(0, 0, 4, 4).translate(Offset::new(10, 20));
    assert_eq!(r, rect(10, 20, 14, 24));
    assert!(r.contains(Point::new(10, 20)));
    assert!(r.contains(Point::new(13, 23)));
    assert!(!r.contains(Point::new(14, 20)));
    assert!(!r.contains(Point::new(9, 20)));
}

#[test]
fn rect_intersect_overlapping() {
    let a = rect(0, 0, 10, 10);
    let b = rect(5, 5, 15, 15);
    assert_eq!(a.intersect(b), rect(5, 5, 10, 10));
    assert_eq!(b.intersect(a), rect(5, 5, 10, 10));
}

#[test]
fn rect_intersect_disjoint_is_empty() {
    let a = rect(0, 0, 4, 4);
    let b = rect(8, 8, 12, 12);
    let i = a.intersect(b);
    assert!(i.is_empty());
    assert!(!a.has_intersection(b));
    assert!(a.has_intersection(rect(3, 3, 5, 5)));
}

#[test]
fn rect_union_covers_both() {
    let a = rect(0, 0, 4, 4);
    let b = rect(8, 2, 12, 3);
    assert_eq!(a.union(b), rect(0, 0, 12, 4));
}

#[test]
fn rect_splits() {
    let a = rect(0, 0, 100, 10);
    let (left, rest) = a.split_left(30);
    assert_eq!(left, rect(0, 0, 30, 10));
    assert_eq!(rest, rect(30, 0, 100, 10));
    let (rest2, right) = a.split_right(30);
    assert_eq!(rest2, rect(0, 0, 70, 10));
    assert_eq!(right, rect(70, 0, 100, 10));
    let (l, c, r) = a.split_center(20);
    assert_eq!(l, rect(0, 0, 40, 10));
    assert_eq!(c, rect(40, 0, 60, 10));
    assert_eq!(r, rect(60, 0, 100, 10));
}

#[test]
fn rect_from_center_and_size() {
    let r = Rect::from_center_and_size(Point::new(50, 40), Offset::new(18, 18));
    assert_eq!(r, rect(41, 31, 59, 49));
}

#[test]
fn viewport_from_size_and_accessors() {
    let v = Viewport::from_size(Offset::new(10, 20));
    assert_eq!(v.clip, rect(0, 0, 10, 20));
    assert_eq!((v.origin.x, v.origin.y), (0, 0));
    assert_eq!(v.width(), 10);
    // The height accessor reports the clip's height, not its width.
    assert_eq!(v.height(), 20);
}

#[test]
fn viewport_absolute_clip_intersects_and_keeps_origin() {
    let v = Viewport::from_size(Offset::new(100, 100)).with_origin(Offset::new(7, 9));
    let r = rect(50, 50, 150, 150);
    let c = v.absolute_clip(r);
    assert_eq!(c.clip, r.intersect(v.clip));
    assert_eq!(c.origin, v.origin);
}

#[test]
fn viewport_relative_clip_translates_first() {
    let v = Viewport::from_size(Offset::new(100, 100)).with_origin(Offset::new(10, 10));
    let c = v.relative_clip(rect(0, 0, 20, 20));
    assert_eq!(c.clip, rect(10, 10, 30, 30));
    assert_eq!(c.origin, v.origin);
}

#[test]
fn viewport_relative_window_rebases_origin() {
    let v = Viewport::from_size(Offset::new(100, 100));
    let w = v.relative_window(rect(30, 40, 60, 80));
    // The new origin is the old one moved by the clip's displacement.
    assert_eq!(w.clip, rect(30, 40, 60, 80));
    assert_eq!((w.origin.x, w.origin.y), (30, 40));
    // An anchored viewport stays anchored: relative (0, 0) maps to the
    // clip's top-left corner.
    assert_eq!(w.origin.x, w.clip.x0);
    assert_eq!(w.origin.y, w.clip.y0);
    let w2 = w.relative_window(rect(5, 5, 10, 10));
    assert_eq!(w2.clip, rect(35, 45, 40, 50));
    assert_eq!((w2.origin.x, w2.origin.y), (35, 45));
}

#[test]
fn viewport_translate_shifts_clip_and_origin() {
    let v = Viewport::from_size(Offset::new(10, 10)).translate(Offset::new(3, 4));
    assert_eq!(v.clip, rect(3, 4, 13, 14));
    assert_eq!((v.origin.x, v.origin.y), (3, 4));
}

#[test]
fn viewport_contains_checks_intersection() {
    let v = Viewport::from_size(Offset::new(10, 10)).with_origin(Offset::new(5, 5));
    assert!(v.contains(rect(0, 0, 2, 2)));
    assert!(v.contains(rect(-2, -2, 1, 1)));
    assert!(!v.contains(rect(6, 6, 9, 9)));
}
