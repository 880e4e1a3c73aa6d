//! Plain value types for coordinates: `Point`, `Offset` and `Rect`.
//!
//! Rectangles are half-open: a point `(x, y)` lies inside `r` when
//! `r.x0 <= x < r.x1` and `r.y0 <= y < r.y1`. Operations that can produce an
//! inverted range (such as `intersect`) normalise the result so that
//! `x0 <= x1` and `y0 <= y1` always hold for their output.

use vstd::prelude::*;

verus! {

/// True when `v` fits in a 16-bit signed coordinate.
pub open spec fn fits_i16(v: int) -> bool {
    i16::MIN <= v <= i16::MAX
}

#[derive(Copy, Clone, Debug, PartialEq, Eq, Structural)]
pub struct Point {
    pub x: i16,
    pub y: i16,
}

#[derive(Copy, Clone, Debug, PartialEq, Eq, Structural)]
pub struct Offset {
    pub x: i16,
    pub y: i16,
}

#[derive(Copy, Clone, Debug, PartialEq, Eq, Structural)]
pub struct Rect {
    pub x0: i16,
    pub y0: i16,
    pub x1: i16,
    pub y1: i16,
}

impl Offset {
    pub fn new(x: i16, y: i16) -> (r: Offset)
        ensures
            r.x == x,
            r.y == y,
    {
        Offset { x, y }
    }

    pub fn zero() -> (r: Offset)
        ensures
            r.x == 0,
            r.y == 0,
    {
        Offset { x: 0, y: 0 }
    }

    /// A purely horizontal offset.
    pub fn x(x: i16) -> (r: Offset)
        ensures
            r.x == x,
            r.y == 0,
    {
        Offset { x, y: 0 }
    }

    /// A purely vertical offset.
    pub fn y(y: i16) -> (r: Offset)
        ensures
            r.x == 0,
            r.y == y,
    {
        Offset { x: 0, y }
    }

    pub fn add(self, o: Offset) -> (r: Offset)
        requires
            fits_i16(self.x + o.x),
            fits_i16(self.y + o.y),
        ensures
            r.x == self.x + o.x,
            r.y == self.y + o.y,
    {
        Offset { x: self.x + o.x, y: self.y + o.y }
    }

    pub fn sub(self, o: Offset) -> (r: Offset)
        requires
            fits_i16(self.x - o.x),
            fits_i16(self.y - o.y),
        ensures
            r.x == self.x - o.x,
            r.y == self.y - o.y,
    {
        Offset { x: self.x - o.x, y: self.y - o.y }
    }
}

impl Point {
    pub fn new(x: i16, y: i16) -> (r: Point)
        ensures
            r.x == x,
            r.y == y,
    {
        Point { x, y }
    }

    pub fn zero() -> (r: Point)
        ensures
            r.x == 0,
            r.y == 0,
    {
        Point { x: 0, y: 0 }
    }

    /// Moves the point by an offset.
    pub fn add_ofs(self, o: Offset) -> (r: Point)
        requires
            fits_i16(self.x + o.x),
            fits_i16(self.y + o.y),
        ensures
            r.x == self.x + o.x,
            r.y == self.y + o.y,
    {
        Point { x: self.x + o.x, y: self.y + o.y }
    }

    /// The offset that carries `o` onto `self`.
    pub fn sub_point(self, o: Point) -> (r: Offset)
        requires
            fits_i16(self.x - o.x),
            fits_i16(self.y - o.y),
        ensures
            r.x == self.x - o.x,
            r.y == self.y - o.y,
    {
        Offset { x: self.x - o.x, y: self.y - o.y }
    }
}

/// Mathematical translation of a rectangle; meaningful when the sums fit.
pub open spec fn spec_translate(r: Rect, o: Offset) -> Rect {
    Rect {
        x0: (r.x0 + o.x) as i16,
        y0: (r.y0 + o.y) as i16,
        x1: (r.x1 + o.x) as i16,
        y1: (r.y1 + o.y) as i16,
    }
}

/// True when translating `r` by `o` stays within 16-bit coordinates.
pub open spec fn translate_fits(r: Rect, o: Offset) -> bool {
    fits_i16(r.x0 + o.x) && fits_i16(r.y0 + o.y) && fits_i16(r.x1 + o.x) && fits_i16(r.y1 + o.y)
}

/// Intersection, normalised so that the result never has an inverted range.
pub open spec fn spec_intersect(a: Rect, b: Rect) -> Rect {
    let x0 = if a.x0 >= b.x0 { a.x0 } else { b.x0 };
    let y0 = if a.y0 >= b.y0 { a.y0 } else { b.y0 };
    let xm = if a.x1 <= b.x1 { a.x1 } else { b.x1 };
    let ym = if a.y1 <= b.y1 { a.y1 } else { b.y1 };
    Rect {
        x0,
        y0,
        x1: if xm >= x0 { xm } else { x0 },
        y1: if ym >= y0 { ym } else { y0 },
    }
}

/// Smallest rectangle covering both arguments.
pub open spec fn spec_union(a: Rect, b: Rect) -> Rect {
    Rect {
        x0: if a.x0 <= b.x0 { a.x0 } else { b.x0 },
        y0: if a.y0 <= b.y0 { a.y0 } else { b.y0 },
        x1: if a.x1 >= b.x1 { a.x1 } else { b.x1 },
        y1: if a.y1 >= b.y1 { a.y1 } else { b.y1 },
    }
}

/// True when the half-open rectangles share at least one point.
pub open spec fn spec_has_intersection(a: Rect, b: Rect) -> bool {
    a.x0 < b.x1 && b.x0 < a.x1 && a.y0 < b.y1 && b.y0 < a.y1
}

impl Rect {
    /// No inverted ranges: both axes are ordered.
    pub open spec fn wf(self) -> bool {
        self.x0 <= self.x1 && self.y0 <= self.y1
    }

    /// Membership of the integer point `(x, y)` in the half-open rectangle.
    pub open spec fn spec_contains(self, x: int, y: int) -> bool {
        self.x0 <= x < self.x1 && self.y0 <= y < self.y1
    }

    pub open spec fn spec_is_empty(self) -> bool {
        self.x0 >= self.x1 || self.y0 >= self.y1
    }

    pub fn new(p0: Point, p1: Point) -> (r: Rect)
        ensures
            r.x0 == p0.x,
            r.y0 == p0.y,
            r.x1 == p1.x,
            r.y1 == p1.y,
    {
        Rect { x0: p0.x, y0: p0.y, x1: p1.x, y1: p1.y }
    }

    pub fn zero() -> (r: Rect)
        ensures
            r.x0 == 0 && r.y0 == 0 && r.x1 == 0 && r.y1 == 0,
    {
        Rect { x0: 0, y0: 0, x1: 0, y1: 0 }
    }

    /// The rectangle spanning `(0, 0)` to `(size.x, size.y)`.
    pub fn from_size(size: Offset) -> (r: Rect)
        ensures
            r.x0 == 0 && r.y0 == 0 && r.x1 == size.x && r.y1 == size.y,
    {
        Rect { x0: 0, y0: 0, x1: size.x, y1: size.y }
    }

    /// The rectangle of the given size centred on `center`.
    pub fn from_center_and_size(center: Point, size: Offset) -> (r: Rect)
        requires
            size.x >= 0,
            size.y >= 0,
            fits_i16(center.x - size.x / 2),
            fits_i16(center.y - size.y / 2),
            fits_i16(center.x - size.x / 2 + size.x),
            fits_i16(center.y - size.y / 2 + size.y),
        ensures
            r.x0 == center.x - size.x / 2,
            r.y0 == center.y - size.y / 2,
            r.x1 == r.x0 + size.x,
            r.y1 == r.y0 + size.y,
    {
        let x0 = center.x - size.x / 2;
        let y0 = center.y - size.y / 2;
        Rect { x0, y0, x1: x0 + size.x, y1: y0 + size.y }
    }

    pub fn width(self) -> (w: i16)
        requires
            fits_i16(self.x1 - self.x0),
        ensures
            w == self.x1 - self.x0,
    {
        self.x1 - self.x0
    }

    pub fn height(self) -> (h: i16)
        requires
            fits_i16(self.y1 - self.y0),
        ensures
            h == self.y1 - self.y0,
    {
        self.y1 - self.y0
    }

    pub fn size(self) -> (s: Offset)
        requires
            fits_i16(self.x1 - self.x0),
            fits_i16(self.y1 - self.y0),
        ensures
            s.x == self.x1 - self.x0,
            s.y == self.y1 - self.y0,
    {
        Offset { x: self.x1 - self.x0, y: self.y1 - self.y0 }
    }

    pub fn is_empty(self) -> (e: bool)
        ensures
            e == self.spec_is_empty(),
    {
        self.x0 >= self.x1 || self.y0 >= self.y1
    }

    pub fn top_left(self) -> (p: Point)
        ensures
            p.x == self.x0,
            p.y == self.y0,
    {
        Point { x: self.x0, y: self.y0 }
    }

    pub fn bottom_right(self) -> (p: Point)
        ensures
            p.x == self.x1,
            p.y == self.y1,
    {
        Point { x: self.x1, y: self.y1 }
    }

    /// The midpoint; restricted to non-negative coordinate sums so that the
    /// halving below matches integer division in the contract.
    pub fn center(self) -> (p: Point)
        requires
            self.x0 + self.x1 >= 0,
            self.y0 + self.y1 >= 0,
        ensures
            p.x == (self.x0 + self.x1) / 2,
            p.y == (self.y0 + self.y1) / 2,
    {
        let cx = ((self.x0 as i32 + self.x1 as i32) / 2) as i16;
        let cy = ((self.y0 as i32 + self.y1 as i32) / 2) as i16;
        Point { x: cx, y: cy }
    }

    pub fn contains(self, p: Point) -> (c: bool)
        ensures
            c == self.spec_contains(p.x as int, p.y as int),
    {
        self.x0 <= p.x && p.x < self.x1 && self.y0 <= p.y && p.y < self.y1
    }

    pub fn translate(self, o: Offset) -> (r: Rect)
        requires
            translate_fits(self, o),
        ensures
            r == spec_translate(self, o),
            r.x0 == self.x0 + o.x,
            r.y0 == self.y0 + o.y,
            r.x1 == self.x1 + o.x,
            r.y1 == self.y1 + o.y,
    {
        Rect {
            x0: self.x0 + o.x,
            y0: self.y0 + o.y,
            x1: self.x1 + o.x,
            y1: self.y1 + o.y,
        }
    }

    /// Intersection of two rectangles; the result is normalised (`wf`) and
    /// contains exactly the points both arguments contain.
    pub fn intersect(self, o: Rect) -> (r: Rect)
        ensures
            r == spec_intersect(self, o),
            r.wf(),
            forall|x: int, y: int|
                r.spec_contains(x, y) == (self.spec_contains(x, y) && o.spec_contains(x, y)),
    {
        let x0 = if self.x0 >= o.x0 { self.x0 } else { o.x0 };
        let y0 = if self.y0 >= o.y0 { self.y0 } else { o.y0 };
        let xm = if self.x1 <= o.x1 { self.x1 } else { o.x1 };
        let ym = if self.y1 <= o.y1 { self.y1 } else { o.y1 };
        Rect {
            x0,
            y0,
            x1: if xm >= x0 { xm } else { x0 },
            y1: if ym >= y0 { ym } else { y0 },
        }
    }

    /// Smallest rectangle covering both arguments.
    pub fn union(self, o: Rect) -> (r: Rect)
        ensures
            r == spec_union(self, o),
    {
        Rect {
            x0: if self.x0 <= o.x0 { self.x0 } else { o.x0 },
            y0: if self.y0 <= o.y0 { self.y0 } else { o.y0 },
            x1: if self.x1 >= o.x1 { self.x1 } else { o.x1 },
            y1: if self.y1 >= o.y1 { self.y1 } else { o.y1 },
        }
    }

    pub fn has_intersection(self, o: Rect) -> (b: bool)
        ensures
            b == spec_has_intersection(self, o),
    {
        self.x0 < o.x1 && o.x0 < self.x1 && self.y0 < o.y1 && o.y0 < self.y1
    }

    /// Splits off a band of the given width at the left edge; returns the
    /// band and the remainder.
    pub fn split_left(self, width: i16) -> (r: (Rect, Rect))
        requires
            fits_i16(self.x0 + width),
        ensures
            r.0 == (Rect { x1: (self.x0 + width) as i16, ..self }),
            r.1 == (Rect { x0: (self.x0 + width) as i16, ..self }),
    {
        let x = self.x0 + width;
        (Rect { x1: x, ..self }, Rect { x0: x, ..self })
    }

    /// Splits off a band of the given width at the right edge; returns the
    /// remainder and the band.
    pub fn split_right(self, width: i16) -> (r: (Rect, Rect))
        requires
            fits_i16(self.x1 - width),
        ensures
            r.0 == (Rect { x1: (self.x1 - width) as i16, ..self }),
            r.1 == (Rect { x0: (self.x1 - width) as i16, ..self }),
    {
        let x = self.x1 - width;
        (Rect { x1: x, ..self }, Rect { x0: x, ..self })
    }

    /// Splits into a left part, a centred band of the given width, and a
    /// right part.
    pub fn split_center(self, width: i16) -> (r: (Rect, Rect, Rect))
        requires
            fits_i16(self.x1 - self.x0),
            fits_i16(self.x1 - self.x0 - width),
            fits_i16(self.x0 + (self.x1 - self.x0 - width) / 2),
            fits_i16(self.x0 + (self.x1 - self.x0 - width) / 2 + width),
            self.x1 - self.x0 - width >= 0,
        ensures
            r.0 == (Rect { x1: (self.x0 + (self.x1 - self.x0 - width) / 2) as i16, ..self }),
            r.1 == (Rect {
                x0: (self.x0 + (self.x1 - self.x0 - width) / 2) as i16,
                x1: (self.x0 + (self.x1 - self.x0 - width) / 2 + width) as i16,
                ..self
            }),
            r.2 == (Rect { x0: (self.x0 + (self.x1 - self.x0 - width) / 2 + width) as i16, ..self }),
    {
        let slack = self.x1 - self.x0 - width;
        let left = self.x0 + slack / 2;
        let right = left + width;
        (
            Rect { x1: left, ..self },
            Rect { x0: left, x1: right, ..self },
            Rect { x0: right, ..self },
        )
    }
}

} // verus!
