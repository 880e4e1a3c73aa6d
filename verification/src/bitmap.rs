//! Owned pixel memory with a declared format, size and row stride.
//!
//! A `Bitmap` owns its buffer, split into rows of `stride` bytes each.
//! Pixels are addressed as `(x, y)` with `x` growing to the right and `y`
//! downwards; the stored value of a pixel is modelled by `spec_px`, an
//! integer in the range of the format's packing rule. A `BitmapView` is a
//! read-only alias of another bitmap's memory, used to pass source pixels
//! across a drawing call without copying them.

use vstd::prelude::*;

use crate::color::{spec_blend, Color};
use crate::format::{
    alpha32, pack16, spec_alpha32, spec_pack16, spec_row_bytes, spec_unpack16, spec_unpack32,
    unpack16, unpack32, BitmapFormat,
};
use crate::geometry::{spec_intersect, Rect};

verus! {

pub struct Bitmap {
    format: BitmapFormat,
    stride: usize,
    width: i16,
    height: i16,
    rows: Vec<Vec<u8>>,
}

/// A read-only view of another bitmap's pixels, alive for one drawing call.
pub struct BitmapView<'a> {
    pub bitmap: &'a Bitmap,
}

impl<'a> BitmapView<'a> {
    pub fn new(bitmap: &'a Bitmap) -> (v: BitmapView<'a>)
        ensures
            v.bitmap == bitmap,
    {
        BitmapView { bitmap }
    }
}

impl Bitmap {
    /// Structural invariant: positive width, the exact stride for the
    /// format, and one buffer row of that stride per logical row.
    pub closed spec fn wf(self) -> bool {
        &&& 1 <= self.width <= 32767
        &&& 0 <= self.height
        &&& self.stride == spec_row_bytes(self.format, self.width as int)
        &&& self.stride >= 1
        &&& self.rows@.len() == self.height
        &&& forall|y: int|
            0 <= y < self.height ==> (#[trigger] self.rows@[y])@.len() == self.stride
    }

    pub closed spec fn spec_format(self) -> BitmapFormat {
        self.format
    }

    pub closed spec fn spec_width(self) -> int {
        self.width as int
    }

    pub closed spec fn spec_height(self) -> int {
        self.height as int
    }

    pub closed spec fn spec_stride(self) -> int {
        self.stride as int
    }

    /// The stored value of pixel `(x, y)`, per the format's packing rule.
    pub closed spec fn spec_px(self, x: int, y: int) -> int {
        let row = self.rows@[y]@;
        match self.format {
            BitmapFormat::MONO1 => ((row[x / 8] >> ((x % 8) as u8)) & 1) as int,
            BitmapFormat::MONO4 => ((row[x / 2] >> ((4 * (x % 2)) as u8)) & 0xF) as int,
            BitmapFormat::RGB565 => row[2 * x] as int + 256 * row[2 * x + 1] as int,
            BitmapFormat::RGBA8888 => row[4 * x] as int + 256 * row[4 * x + 1] as int + 65536
                * row[4 * x + 2] as int + 16777216 * row[4 * x + 3] as int,
        }
    }

    /// True when `p` is a value the format can store.
    pub open spec fn spec_px_fits(format: BitmapFormat, p: int) -> bool {
        match format {
            BitmapFormat::MONO1 => 0 <= p < 2,
            BitmapFormat::MONO4 => 0 <= p < 16,
            BitmapFormat::RGB565 => 0 <= p < 0x10000,
            BitmapFormat::RGBA8888 => 0 <= p < 0x100000000,
        }
    }

    /// The bytes of row `y`.
    pub closed spec fn spec_row(self, y: int) -> Seq<u8> {
        self.rows@[y]@
    }

    /// The rectangle covering the whole bitmap.
    pub open spec fn spec_bounds(self) -> Rect {
        Rect {
            x0: 0,
            y0: 0,
            x1: self.spec_width() as i16,
            y1: self.spec_height() as i16,
        }
    }

    pub fn format(&self) -> (f: BitmapFormat)
        ensures
            f == self.spec_format(),
    {
        self.format
    }

    pub fn width(&self) -> (w: i16)
        ensures
            w == self.spec_width(),
    {
        self.width
    }

    pub fn height(&self) -> (h: i16)
        ensures
            h == self.spec_height(),
    {
        self.height
    }

    pub fn stride(&self) -> (s: usize)
        ensures
            s == self.spec_stride(),
    {
        self.stride
    }

    /// The size as an offset pair.
    pub fn size(&self) -> (s: crate::geometry::Offset)
        ensures
            s.x == self.spec_width(),
            s.y == self.spec_height(),
    {
        crate::geometry::Offset { x: self.width, y: self.height }
    }

    /// The rectangle covering the whole bitmap.
    pub fn bounds(&self) -> (r: Rect)
        ensures
            r == self.spec_bounds(),
    {
        Rect { x0: 0, y0: 0, x1: self.width, y1: self.height }
    }

    /// A read-only borrow of row `y`'s bytes; `None` for `y` outside
    /// `[0, height)`.
    pub fn row(&self, y: i16) -> (r: Option<&Vec<u8>>)
        requires
            self.wf(),
        ensures
            r.is_some() <==> 0 <= y < self.spec_height(),
            r.is_some() ==> r.unwrap()@ == self.spec_row(y as int),
    {
        if 0 <= y && y < self.height {
            Some(&self.rows[y as usize])
        } else {
            None
        }
    }

    /// Creates a bitmap over the supplied buffer.
    ///
    /// The requested height is `explicit_height` when given, the `y` of
    /// `size` otherwise. Construction fails when the width is not
    /// positive, the requested height is negative, or the buffer is
    /// shorter than one row of pixels at the requested width. When the
    /// buffer cannot hold the requested number of rows, the height is
    /// adjusted down to the number of full rows the buffer can hold,
    /// provided `min_height` is given and that many rows reach it;
    /// otherwise construction fails.
    pub fn new_mut(
        format: BitmapFormat,
        explicit_height: Option<i16>,
        size: crate::geometry::Offset,
        min_height: Option<i16>,
        buff: Vec<u8>,
    ) -> (r: Option<Bitmap>)
        ensures
            r.is_some() <==> Self::spec_new_height(
                format,
                explicit_height,
                size,
                min_height,
                buff@.len() as int,
            ) >= 0,
            r.is_some() ==> {
                let b = r.unwrap();
                &&& b.wf()
                &&& b.spec_format() == format
                &&& b.spec_width() == size.x as int
                &&& b.spec_height() == Self::spec_new_height(
                    format,
                    explicit_height,
                    size,
                    min_height,
                    buff@.len() as int,
                )
                &&& forall|y: int|
                    0 <= y < b.spec_height() ==> #[trigger] b.spec_row(y) == buff@.subrange(
                        y * b.spec_stride(),
                        (y + 1) * b.spec_stride(),
                    )
            },
    {
        if size.x < 1 {
            return None;
        }
        let requested: i16 = match explicit_height {
            Some(h) => h,
            None => size.y,
        };
        if requested < 0 {
            return None;
        }
        let row_len: usize = format.row_bytes(size.x as usize);
        assert(row_len >= 1);
        if buff.len() < row_len {
            return None;
        }
        let mut max_rows: usize = buff.len() / row_len;
        if max_rows > 32767 {
            max_rows = 32767;
        }
        let height: i16 = if requested as usize <= max_rows {
            requested
        } else {
            match min_height {
                Some(mh) if 0 <= mh && mh as usize <= max_rows => max_rows as i16,
                _ => {
                    return None;
                },
            }
        };
        proof {
            vstd::arithmetic::div_mod::lemma_fundamental_div_mod(
                buff@.len() as int,
                row_len as int,
            );
            vstd::arithmetic::div_mod::lemma_mod_division_less_than_divisor(
                buff@.len() as int,
                row_len as int,
            );
            vstd::arithmetic::mul::lemma_mul_inequality(
                height as int,
                buff@.len() as int / row_len as int,
                row_len as int,
            );
            vstd::arithmetic::mul::lemma_mul_is_commutative(
                buff@.len() as int / row_len as int,
                row_len as int,
            );
        }
        let buff_len: usize = buff.len();
        assert(height as usize * row_len <= buff_len);
        let mut rows: Vec<Vec<u8>> = Vec::new();
        let mut y: usize = 0;
        while y < height as usize
            invariant
                0 <= height,
                y <= height as usize,
                row_len >= 1,
                buff_len == buff@.len(),
                height as usize * row_len <= buff_len,
                rows@.len() == y,
                forall|i: int|
                    0 <= i < y ==> (#[trigger] rows@[i])@ == buff@.subrange(
                        i * row_len,
                        (i + 1) * row_len,
                    ),
                forall|i: int| 0 <= i < y ==> (#[trigger] rows@[i])@.len() == row_len,
            decreases height as usize - y,
        {
            proof {
                assert(0 <= y * row_len && y * row_len + row_len <= height as usize
                    * row_len) by (nonlinear_arith)
                    requires
                        y < height as usize,
                        1 <= row_len,
                ;
            }
            let base: usize = y * row_len;
            let mut row: Vec<u8> = Vec::new();
            let mut i: usize = 0;
            while i < row_len
                invariant
                    i <= row_len,
                    buff_len == buff@.len(),
                    base + row_len <= buff_len,
                    base == y * row_len,
                    row@.len() == i,
                    row@ == buff@.subrange(base as int, base as int + i as int),
                decreases row_len - i,
            {
                row.push(buff[base + i]);
                proof {
                    assert(row@ =~= buff@.subrange(base as int, base as int + i as int + 1));
                }
                i = i + 1;
            }
            rows.push(row);
            proof {
                assert((y + 1) * row_len == y * row_len + row_len) by (nonlinear_arith);
            }
            y = y + 1;
        }
        let b = Bitmap { format, stride: row_len, width: size.x, height, rows };
        Some(b)
    }

    /// The height `new_mut` will choose, or `-1` when construction fails.
    pub open spec fn spec_new_height(
        format: BitmapFormat,
        explicit_height: Option<i16>,
        size: crate::geometry::Offset,
        min_height: Option<i16>,
        buff_len: int,
    ) -> int {
        let requested: int = match explicit_height {
            Some(h) => h as int,
            None => size.y as int,
        };
        let row_len = spec_row_bytes(format, size.x as int);
        let max_rows = Self::spec_max_rows(buff_len, row_len);
        if size.x < 1 || requested < 0 || buff_len < row_len {
            -1
        } else if requested <= max_rows {
            requested
        } else {
            match min_height {
                Some(mh) => if 0 <= mh && mh as int <= max_rows {
                    max_rows
                } else {
                    -1
                },
                None => -1,
            }
        }
    }

    /// Full rows the buffer can hold, capped at the coordinate range.
    pub open spec fn spec_max_rows(buff_len: int, row_len: int) -> int {
        let q = buff_len / row_len;
        if q > 32767 {
            32767
        } else {
            q
        }
    }
}

impl Bitmap {
    /// True when `b` has the same format and dimensions as `a`.
    pub open spec fn same_shape(a: Bitmap, b: Bitmap) -> bool {
        &&& b.spec_format() == a.spec_format()
        &&& b.spec_width() == a.spec_width()
        &&& b.spec_height() == a.spec_height()
        &&& b.spec_stride() == a.spec_stride()
    }

    /// Reads the stored value of pixel `(x, y)`.
    pub fn get_px(&self, x: usize, y: usize) -> (p: u32)
        requires
            self.wf(),
            x < self.spec_width(),
            y < self.spec_height(),
        ensures
            p == self.spec_px(x as int, y as int),
            Self::spec_px_fits(self.spec_format(), p as int),
    {
        let row: &Vec<u8> = &self.rows[y];
        match self.format {
            BitmapFormat::MONO1 => {
                proof {
                    lemma_mono1_byte_index(x as int, self.spec_width());
                }
                let sh: u8 = (x % 8) as u8;
                let v: u8 = (row[x / 8] >> sh) & 1;
                proof {
                    let b = pre_byte_m1(*self, x as int, y as int);
                    assert(((b >> sh) & 1) < 2) by (bit_vector);
                }
                v as u32
            },
            BitmapFormat::MONO4 => {
                proof {
                    lemma_mono4_byte_index(x as int, self.spec_width());
                }
                let sh: u8 = (4 * (x % 2)) as u8;
                let v: u8 = (row[x / 2] >> sh) & 0xF;
                proof {
                    let b = pre_byte_m4(*self, x as int, y as int);
                    assert(((b >> sh) & 0xF) < 16) by (bit_vector);
                }
                v as u32
            },
            BitmapFormat::RGB565 => {
                let lo: u32 = row[2 * x] as u32;
                let hi: u32 = row[2 * x + 1] as u32;
                lo + 256 * hi
            },
            BitmapFormat::RGBA8888 => {
                let b0: u32 = row[4 * x] as u32;
                let b1: u32 = row[4 * x + 1] as u32;
                let b2: u32 = row[4 * x + 2] as u32;
                let b3: u32 = row[4 * x + 3] as u32;
                b0 + 256 * b1 + 65536 * b2 + 16777216 * b3
            },
        }
    }

    /// Writes the stored value of pixel `(x, y)`; every other pixel and the
    /// bitmap's shape are untouched.
    pub fn set_px(&mut self, x: usize, y: usize, p: u32)
        requires
            old(self).wf(),
            x < old(self).spec_width(),
            y < old(self).spec_height(),
            Self::spec_px_fits(old(self).spec_format(), p as int),
        ensures
            final(self).wf(),
            Self::same_shape(*old(self), *final(self)),
            final(self).spec_px(x as int, y as int) == p as int,
            forall|xx: int, yy: int|
                0 <= xx < old(self).spec_width() && 0 <= yy < old(self).spec_height() && !(xx
                    == x as int && yy == y as int) ==> final(self).spec_px(xx, yy) == old(
                    self,
                ).spec_px(xx, yy),
    {
        let ghost pre = *self;
        match self.format {
            BitmapFormat::MONO1 => {
                proof {
                    lemma_mono1_byte_index(x as int, self.spec_width());
                }
                let bi: usize = x / 8;
                let sh: u8 = (x % 8) as u8;
                let row: &mut Vec<u8> = &mut self.rows[y];
                let b: u8 = row[bi];
                let nb: u8 = (b & !(1u8 << sh)) | ((p as u8) << sh);
                row[bi] = nb;
                proof {
                    lemma_mono1_update(b, sh, p as u8);
                    assert forall|xx: int, yy: int|
                        0 <= xx < pre.spec_width() && 0 <= yy < pre.spec_height() && !(xx
                            == x as int && yy == y as int) implies self.spec_px(xx, yy)
                        == pre.spec_px(xx, yy) by {
                        if yy == y as int && xx / 8 == x as int / 8 {
                            vstd::arithmetic::div_mod::lemma_fundamental_div_mod(xx, 8);
                            vstd::arithmetic::div_mod::lemma_fundamental_div_mod(x as int, 8);
                            lemma_mono1_byte_index(xx, pre.spec_width());
                        } else if yy == y as int {
                            lemma_mono1_byte_index(xx, pre.spec_width());
                        }
                    }
                }
            },
            BitmapFormat::MONO4 => {
                proof {
                    lemma_mono4_byte_index(x as int, self.spec_width());
                }
                let bi: usize = x / 2;
                let sh: u8 = (4 * (x % 2)) as u8;
                let row: &mut Vec<u8> = &mut self.rows[y];
                let b: u8 = row[bi];
                let nb: u8 = (b & !(0xFu8 << sh)) | ((p as u8) << sh);
                row[bi] = nb;
                proof {
                    lemma_mono4_update(b, sh, p as u8);
                    assert forall|xx: int, yy: int|
                        0 <= xx < pre.spec_width() && 0 <= yy < pre.spec_height() && !(xx
                            == x as int && yy == y as int) implies self.spec_px(xx, yy)
                        == pre.spec_px(xx, yy) by {
                        if yy == y as int && xx / 2 == x as int / 2 {
                            vstd::arithmetic::div_mod::lemma_fundamental_div_mod(xx, 2);
                            vstd::arithmetic::div_mod::lemma_fundamental_div_mod(x as int, 2);
                            lemma_mono4_byte_index(xx, pre.spec_width());
                        } else if yy == y as int {
                            lemma_mono4_byte_index(xx, pre.spec_width());
                        }
                    }
                }
            },
            BitmapFormat::RGB565 => {
                let xi: usize = 2 * x;
                let lo: u8 = (p % 256) as u8;
                let hi: u8 = ((p / 256) % 256) as u8;
                let row: &mut Vec<u8> = &mut self.rows[y];
                row[xi] = lo;
                row[xi + 1] = hi;
            },
            BitmapFormat::RGBA8888 => {
                let xi: usize = 4 * x;
                let b0: u8 = (p % 256) as u8;
                let b1: u8 = ((p / 256) % 256) as u8;
                let b2: u8 = ((p / 65536) % 256) as u8;
                let b3: u8 = ((p / 16777216) % 256) as u8;
                let row: &mut Vec<u8> = &mut self.rows[y];
                row[xi] = b0;
                row[xi + 1] = b1;
                row[xi + 2] = b2;
                row[xi + 3] = b3;
            },
        }
    }
}

impl Bitmap {
    /// The effective region of a draw call: the target rectangle cut down
    /// by the supplied clip and by the bitmap bounds.
    pub open spec fn spec_clipped(self, r: Rect, clip: Rect) -> Rect {
        spec_intersect(spec_intersect(r, clip), self.spec_bounds())
    }

    /// The value a fill with `color` and `alpha` leaves in a 16-bit pixel
    /// holding `old_px`: the packed colour for an opaque fill, the packed
    /// blend of colour over the unpacked old value otherwise.
    pub open spec fn spec_fill_px16(old_px: int, color: Color, alpha: int) -> int {
        if alpha == 255 {
            spec_pack16(color)
        } else {
            spec_pack16(spec_blend(spec_unpack16(old_px), color, alpha))
        }
    }

    /// Fills the part of `r` inside `clip` and inside the bitmap with
    /// `color`, blending with the given alpha. Pixels outside that region
    /// are untouched; when the region is empty nothing at all is touched.
    pub fn rgb565_fill(&mut self, r: Rect, clip: Rect, color: Color, alpha: u8)
        requires
            old(self).wf(),
            old(self).spec_format() == BitmapFormat::RGB565,
        ensures
            final(self).wf(),
            Self::same_shape(*old(self), *final(self)),
            forall|xx: int, yy: int|
                0 <= xx < old(self).spec_width() && 0 <= yy < old(self).spec_height() && old(
                    self,
                ).spec_clipped(r, clip).spec_contains(xx, yy) ==> #[trigger] final(self).spec_px(
                    xx,
                    yy,
                ) == Self::spec_fill_px16(old(self).spec_px(xx, yy), color, alpha as int),
            forall|xx: int, yy: int|
                0 <= xx < old(self).spec_width() && 0 <= yy < old(self).spec_height() && !old(
                    self,
                ).spec_clipped(r, clip).spec_contains(xx, yy) ==> #[trigger] final(self).spec_px(
                    xx,
                    yy,
                ) == old(self).spec_px(xx, yy),
            old(self).spec_clipped(r, clip).spec_is_empty() ==> *final(self) == *old(self),
    {
        let ghost pre = *self;
        let eff: Rect = r.intersect(clip).intersect(self.bounds());
        if eff.is_empty() {
            return ;
        }
        let xs: usize = eff.x0 as usize;
        let xe: usize = eff.x1 as usize;
        let ys: usize = eff.y0 as usize;
        let ye: usize = eff.y1 as usize;
        let mut y: usize = ys;
        while y < ye
            invariant
                self.wf(),
                Self::same_shape(pre, *self),
                self.spec_format() == BitmapFormat::RGB565,
                eff == pre.spec_clipped(r, clip),
                0 <= eff.x0 < eff.x1 <= pre.spec_width(),
                0 <= eff.y0 < eff.y1 <= pre.spec_height(),
                xs == eff.x0 && xe == eff.x1 && ys == eff.y0 && ye == eff.y1,
                ys <= y <= ye,
                forall|xx: int, yy: int|
                    0 <= xx < pre.spec_width() && 0 <= yy < pre.spec_height() && eff.spec_contains(
                        xx,
                        yy,
                    ) && yy < y ==> #[trigger] self.spec_px(xx, yy) == Self::spec_fill_px16(
                        pre.spec_px(xx, yy),
                        color,
                        alpha as int,
                    ),
                forall|xx: int, yy: int|
                    0 <= xx < pre.spec_width() && 0 <= yy < pre.spec_height() && !(
                    eff.spec_contains(xx, yy) && yy < y) ==> #[trigger] self.spec_px(xx, yy)
                        == pre.spec_px(xx, yy),
            decreases ye - y,
        {
            let mut x: usize = xs;
            while x < xe
                invariant
                    self.wf(),
                    Self::same_shape(pre, *self),
                    self.spec_format() == BitmapFormat::RGB565,
                    eff == pre.spec_clipped(r, clip),
                    0 <= eff.x0 < eff.x1 <= pre.spec_width(),
                    0 <= eff.y0 < eff.y1 <= pre.spec_height(),
                    xs == eff.x0 && xe == eff.x1 && ys == eff.y0 && ye == eff.y1,
                    ys <= y < ye,
                    xs <= x <= xe,
                    forall|xx: int, yy: int|
                        0 <= xx < pre.spec_width() && 0 <= yy < pre.spec_height()
                            && eff.spec_contains(xx, yy) && (yy < y || (yy == y && xx < x))
                            ==> #[trigger] self.spec_px(xx, yy) == Self::spec_fill_px16(
                            pre.spec_px(xx, yy),
                            color,
                            alpha as int,
                        ),
                    forall|xx: int, yy: int|
                        0 <= xx < pre.spec_width() && 0 <= yy < pre.spec_height() && !(
                        eff.spec_contains(xx, yy) && (yy < y || (yy == y && xx < x)))
                            ==> #[trigger] self.spec_px(xx, yy) == pre.spec_px(xx, yy),
                decreases xe - x,
            {
                if alpha == 255 {
                    let px: u16 = pack16(color);
                    self.set_px(x, y, px as u32);
                } else {
                    let cur: u32 = self.get_px(x, y);
                    let c: Color = unpack16(cur as u16);
                    let px: u16 = pack16(c.blend(color, alpha));
                    self.set_px(x, y, px as u32);
                }
                x = x + 1;
            }
            y = y + 1;
        }
    }
    /// The effective region of a copy or blend: `spec_clipped`, further cut
    /// down so that the matching source pixel `(x - r.x0, y - r.y0)` exists.
    pub open spec fn spec_clipped_src(self, r: Rect, clip: Rect, src: Bitmap) -> Rect {
        let e = self.spec_clipped(r, clip);
        let lx = r.x0 + src.spec_width();
        let ly = r.y0 + src.spec_height();
        let x1 = if lx <= e.x1 {
            lx
        } else {
            e.x1 as int
        };
        let y1 = if ly <= e.y1 {
            ly
        } else {
            e.y1 as int
        };
        Rect {
            x0: e.x0,
            y0: e.y0,
            x1: (if x1 >= e.x0 {
                x1
            } else {
                e.x0 as int
            }) as i16,
            y1: (if y1 >= e.y0 {
                y1
            } else {
                e.y0 as int
            }) as i16,
        }
    }

    /// Computes the effective copy/blend region in 32-bit arithmetic.
    fn clipped_src(&self, r: Rect, clip: Rect, src: &Bitmap) -> (e: Rect)
        requires
            self.wf(),
            src.wf(),
        ensures
            e == self.spec_clipped_src(r, clip, *src),
            e.wf(),
            !e.spec_is_empty() ==> 0 <= e.x0 < e.x1 <= self.spec_width() && 0 <= e.y0 < e.y1
                <= self.spec_height(),
            !e.spec_is_empty() ==> r.x0 <= e.x0 && r.y0 <= e.y0 && e.x1 <= r.x0 + src.spec_width()
                && e.y1 <= r.y0 + src.spec_height(),
    {
        let eff: Rect = r.intersect(clip).intersect(self.bounds());
        let lx: i32 = r.x0 as i32 + src.width() as i32;
        let ly: i32 = r.y0 as i32 + src.height() as i32;
        let x1: i32 = if lx <= eff.x1 as i32 {
            lx
        } else {
            eff.x1 as i32
        };
        let y1: i32 = if ly <= eff.y1 as i32 {
            ly
        } else {
            eff.y1 as i32
        };
        let x1c: i16 = if x1 >= eff.x0 as i32 {
            x1 as i16
        } else {
            eff.x0
        };
        let y1c: i16 = if y1 >= eff.y0 as i32 {
            y1 as i16
        } else {
            eff.y0
        };
        Rect { x0: eff.x0, y0: eff.y0, x1: x1c, y1: y1c }
    }

    /// Opaque copy: every pixel of `r` inside `clip`, inside the bitmap and
    /// backed by a source pixel takes the source's stored value; everything
    /// else is untouched.
    pub fn rgb565_copy(&mut self, r: Rect, clip: Rect, src: &BitmapView<'_>)
        requires
            old(self).wf(),
            old(self).spec_format() == BitmapFormat::RGB565,
            src.bitmap.wf(),
            src.bitmap.spec_format() == BitmapFormat::RGB565,
        ensures
            final(self).wf(),
            Self::same_shape(*old(self), *final(self)),
            forall|xx: int, yy: int|
                0 <= xx < old(self).spec_width() && 0 <= yy < old(self).spec_height() && old(
                    self,
                ).spec_clipped_src(r, clip, *src.bitmap).spec_contains(xx, yy) ==> #[trigger] final(self).spec_px(xx, yy) == src.bitmap.spec_px(xx - r.x0, yy - r.y0),
            forall|xx: int, yy: int|
                0 <= xx < old(self).spec_width() && 0 <= yy < old(self).spec_height() && !old(
                    self,
                ).spec_clipped_src(r, clip, *src.bitmap).spec_contains(xx, yy) ==> #[trigger] final(self).spec_px(xx, yy) == old(self).spec_px(xx, yy),
            old(self).spec_clipped_src(r, clip, *src.bitmap).spec_is_empty() ==> *final(self)
                == *old(self),
    {
        let ghost pre = *self;
        let eff: Rect = self.clipped_src(r, clip, src.bitmap);
        if eff.is_empty() {
            return ;
        }
        let xs: usize = eff.x0 as usize;
        let xe: usize = eff.x1 as usize;
        let ys: usize = eff.y0 as usize;
        let ye: usize = eff.y1 as usize;
        let mut y: usize = ys;
        while y < ye
            invariant
                self.wf(),
                src.bitmap.wf(),
                src.bitmap.spec_format() == BitmapFormat::RGB565,
                Self::same_shape(pre, *self),
                self.spec_format() == BitmapFormat::RGB565,
                eff == pre.spec_clipped_src(r, clip, *src.bitmap),
                0 <= eff.x0 < eff.x1 <= pre.spec_width(),
                0 <= eff.y0 < eff.y1 <= pre.spec_height(),
                r.x0 <= eff.x0 && r.y0 <= eff.y0,
                eff.x1 <= r.x0 + src.bitmap.spec_width(),
                eff.y1 <= r.y0 + src.bitmap.spec_height(),
                xs == eff.x0 && xe == eff.x1 && ys == eff.y0 && ye == eff.y1,
                ys <= y <= ye,
                forall|xx: int, yy: int|
                    0 <= xx < pre.spec_width() && 0 <= yy < pre.spec_height() && eff.spec_contains(
                        xx,
                        yy,
                    ) && yy < y ==> #[trigger] self.spec_px(xx, yy) == src.bitmap.spec_px(
                        xx - r.x0,
                        yy - r.y0,
                    ),
                forall|xx: int, yy: int|
                    0 <= xx < pre.spec_width() && 0 <= yy < pre.spec_height() && !(
                    eff.spec_contains(xx, yy) && yy < y) ==> #[trigger] self.spec_px(xx, yy)
                        == pre.spec_px(xx, yy),
            decreases ye - y,
        {
            let mut x: usize = xs;
            while x < xe
                invariant
                    self.wf(),
                    src.bitmap.wf(),
                    src.bitmap.spec_format() == BitmapFormat::RGB565,
                    Self::same_shape(pre, *self),
                    self.spec_format() == BitmapFormat::RGB565,
                    eff == pre.spec_clipped_src(r, clip, *src.bitmap),
                    0 <= eff.x0 < eff.x1 <= pre.spec_width(),
                    0 <= eff.y0 < eff.y1 <= pre.spec_height(),
                    r.x0 <= eff.x0 && r.y0 <= eff.y0,
                    eff.x1 <= r.x0 + src.bitmap.spec_width(),
                    eff.y1 <= r.y0 + src.bitmap.spec_height(),
                    xs == eff.x0 && xe == eff.x1 && ys == eff.y0 && ye == eff.y1,
                    ys <= y < ye,
                    xs <= x <= xe,
                    forall|xx: int, yy: int|
                        0 <= xx < pre.spec_width() && 0 <= yy < pre.spec_height()
                            && eff.spec_contains(xx, yy) && (yy < y || (yy == y && xx < x))
                            ==> #[trigger] self.spec_px(xx, yy) == src.bitmap.spec_px(
                            xx - r.x0,
                            yy - r.y0,
                        ),
                    forall|xx: int, yy: int|
                        0 <= xx < pre.spec_width() && 0 <= yy < pre.spec_height() && !(
                        eff.spec_contains(xx, yy) && (yy < y || (yy == y && xx < x)))
                            ==> #[trigger] self.spec_px(xx, yy) == pre.spec_px(xx, yy),
                decreases xe - x,
            {
                let sx: usize = (x as i32 - r.x0 as i32) as usize;
                let sy: usize = (y as i32 - r.y0 as i32) as usize;
                let sp: u32 = src.bitmap.get_px(sx, sy);
                self.set_px(x, y, sp);
                x = x + 1;
            }
            y = y + 1;
        }
    }

    /// The value a blend leaves in a 16-bit pixel holding `old_px` when the
    /// 32-bit source pixel `src_px` is composited over it: the source's
    /// colour weighted by the source's alpha byte.
    pub open spec fn spec_blend_px16(old_px: int, src_px: int) -> int {
        spec_pack16(spec_blend(spec_unpack16(old_px), spec_unpack32(src_px), spec_alpha32(src_px)))
    }

    /// Per-pixel alpha composite of a 32-bit source region over the bitmap:
    /// every pixel of the effective region blends with its source pixel,
    /// everything else is untouched.
    pub fn rgb565_blend(&mut self, r: Rect, clip: Rect, src: &BitmapView<'_>)
        requires
            old(self).wf(),
            old(self).spec_format() == BitmapFormat::RGB565,
            src.bitmap.wf(),
            src.bitmap.spec_format() == BitmapFormat::RGBA8888,
        ensures
            final(self).wf(),
            Self::same_shape(*old(self), *final(self)),
            forall|xx: int, yy: int|
                0 <= xx < old(self).spec_width() && 0 <= yy < old(self).spec_height() && old(
                    self,
                ).spec_clipped_src(r, clip, *src.bitmap).spec_contains(xx, yy) ==> #[trigger] final(self).spec_px(xx, yy) == Self::spec_blend_px16(
                    old(self).spec_px(xx, yy),
                    src.bitmap.spec_px(xx - r.x0, yy - r.y0),
                ),
            forall|xx: int, yy: int|
                0 <= xx < old(self).spec_width() && 0 <= yy < old(self).spec_height() && !old(
                    self,
                ).spec_clipped_src(r, clip, *src.bitmap).spec_contains(xx, yy) ==> #[trigger] final(self).spec_px(xx, yy) == old(self).spec_px(xx, yy),
            old(self).spec_clipped_src(r, clip, *src.bitmap).spec_is_empty() ==> *final(self)
                == *old(self),
    {
        let ghost pre = *self;
        let eff: Rect = self.clipped_src(r, clip, src.bitmap);
        if eff.is_empty() {
            return ;
        }
        let xs: usize = eff.x0 as usize;
        let xe: usize = eff.x1 as usize;
        let ys: usize = eff.y0 as usize;
        let ye: usize = eff.y1 as usize;
        let mut y: usize = ys;
        while y < ye
            invariant
                self.wf(),
                src.bitmap.wf(),
                src.bitmap.spec_format() == BitmapFormat::RGBA8888,
                Self::same_shape(pre, *self),
                self.spec_format() == BitmapFormat::RGB565,
                eff == pre.spec_clipped_src(r, clip, *src.bitmap),
                0 <= eff.x0 < eff.x1 <= pre.spec_width(),
                0 <= eff.y0 < eff.y1 <= pre.spec_height(),
                r.x0 <= eff.x0 && r.y0 <= eff.y0,
                eff.x1 <= r.x0 + src.bitmap.spec_width(),
                eff.y1 <= r.y0 + src.bitmap.spec_height(),
                xs == eff.x0 && xe == eff.x1 && ys == eff.y0 && ye == eff.y1,
                ys <= y <= ye,
                forall|xx: int, yy: int|
                    0 <= xx < pre.spec_width() && 0 <= yy < pre.spec_height() && eff.spec_contains(
                        xx,
                        yy,
                    ) && yy < y ==> #[trigger] self.spec_px(xx, yy) == Self::spec_blend_px16(
                        pre.spec_px(xx, yy),
                        src.bitmap.spec_px(xx - r.x0, yy - r.y0),
                    ),
                forall|xx: int, yy: int|
                    0 <= xx < pre.spec_width() && 0 <= yy < pre.spec_height() && !(
                    eff.spec_contains(xx, yy) && yy < y) ==> #[trigger] self.spec_px(xx, yy)
                        == pre.spec_px(xx, yy),
            decreases ye - y,
        {
            let mut x: usize = xs;
            while x < xe
                invariant
                    self.wf(),
                    src.bitmap.wf(),
                    src.bitmap.spec_format() == BitmapFormat::RGBA8888,
                    Self::same_shape(pre, *self),
                    self.spec_format() == BitmapFormat::RGB565,
                    eff == pre.spec_clipped_src(r, clip, *src.bitmap),
                    0 <= eff.x0 < eff.x1 <= pre.spec_width(),
                    0 <= eff.y0 < eff.y1 <= pre.spec_height(),
                    r.x0 <= eff.x0 && r.y0 <= eff.y0,
                    eff.x1 <= r.x0 + src.bitmap.spec_width(),
                    eff.y1 <= r.y0 + src.bitmap.spec_height(),
                    xs == eff.x0 && xe == eff.x1 && ys == eff.y0 && ye == eff.y1,
                    ys <= y < ye,
                    xs <= x <= xe,
                    forall|xx: int, yy: int|
                        0 <= xx < pre.spec_width() && 0 <= yy < pre.spec_height()
                            && eff.spec_contains(xx, yy) && (yy < y || (yy == y && xx < x))
                            ==> #[trigger] self.spec_px(xx, yy) == Self::spec_blend_px16(
                            pre.spec_px(xx, yy),
                            src.bitmap.spec_px(xx - r.x0, yy - r.y0),
                        ),
                    forall|xx: int, yy: int|
                        0 <= xx < pre.spec_width() && 0 <= yy < pre.spec_height() && !(
                        eff.spec_contains(xx, yy) && (yy < y || (yy == y && xx < x)))
                            ==> #[trigger] self.spec_px(xx, yy) == pre.spec_px(xx, yy),
                decreases xe - x,
            {
                let sx: usize = (x as i32 - r.x0 as i32) as usize;
                let sy: usize = (y as i32 - r.y0 as i32) as usize;
                let sp: u32 = src.bitmap.get_px(sx, sy);
                let cur: u32 = self.get_px(x, y);
                let c: Color = unpack16(cur as u16);
                let fg: Color = unpack32(sp);
                let a: u8 = alpha32(sp);
                let px: u16 = pack16(c.blend(fg, a));
                self.set_px(x, y, px as u32);
                x = x + 1;
            }
            y = y + 1;
        }
    }
    /// Reads the 16-bit pixels `x0 .. x1` of row `y`.
    pub fn read_row16(&self, y: usize, x0: usize, x1: usize) -> (v: Vec<u16>)
        requires
            self.wf(),
            self.spec_format() == BitmapFormat::RGB565,
            x0 <= x1 <= self.spec_width(),
            y < self.spec_height(),
        ensures
            v@.len() == x1 - x0,
            forall|i: int|
                0 <= i < v@.len() ==> #[trigger] v@[i] == self.spec_px(x0 + i, y as int),
    {
        let mut v: Vec<u16> = Vec::new();
        let mut x: usize = x0;
        while x < x1
            invariant
                self.wf(),
                self.spec_format() == BitmapFormat::RGB565,
                x0 <= x <= x1 <= self.spec_width(),
                y < self.spec_height(),
                v@.len() == x - x0,
                forall|i: int|
                    0 <= i < v@.len() ==> #[trigger] v@[i] == self.spec_px(x0 + i, y as int),
            decreases x1 - x,
        {
            let p: u32 = self.get_px(x, y);
            v.push(p as u16);
            x = x + 1;
        }
        v
    }

    /// Writes the 16-bit pixels `v` into row `y` starting at column `x0`;
    /// every pixel outside that span is untouched.
    pub fn write_row16(&mut self, y: usize, x0: usize, v: &Vec<u16>)
        requires
            old(self).wf(),
            old(self).spec_format() == BitmapFormat::RGB565,
            y < old(self).spec_height(),
            x0 + v@.len() <= old(self).spec_width(),
        ensures
            final(self).wf(),
            Self::same_shape(*old(self), *final(self)),
            forall|i: int|
                0 <= i < v@.len() ==> #[trigger] final(self).spec_px(x0 + i, y as int) == v@[i],
            forall|xx: int, yy: int|
                0 <= xx < old(self).spec_width() && 0 <= yy < old(self).spec_height() && !(yy
                    == y as int && x0 <= xx < x0 + v@.len()) ==> #[trigger] final(self).spec_px(
                    xx,
                    yy,
                ) == old(self).spec_px(xx, yy),
    {
        let ghost pre = *self;
        let n: usize = v.len();
        let mut i: usize = 0;
        while i < n
            invariant
                self.wf(),
                Self::same_shape(pre, *self),
                self.spec_format() == BitmapFormat::RGB565,
                y < pre.spec_height(),
                n == v@.len(),
                x0 + n <= pre.spec_width(),
                i <= n,
                forall|j: int|
                    0 <= j < i ==> #[trigger] self.spec_px(x0 + j, y as int) == v@[j],
                forall|xx: int, yy: int|
                    0 <= xx < pre.spec_width() && 0 <= yy < pre.spec_height() && !(yy == y as int
                        && x0 <= xx < x0 + i) ==> #[trigger] self.spec_px(xx, yy) == pre.spec_px(
                        xx,
                        yy,
                    ),
            decreases n - i,
        {
            let p: u16 = v[i];
            self.set_px(x0 + i, y, p as u32);
            i = i + 1;
        }
    }
}

/// The byte a 1-bit pixel is stored in.
spec fn pre_byte_m1(b: Bitmap, x: int, y: int) -> u8 {
    b.spec_row(y)[x / 8]
}

/// The byte a 4-bit pixel is stored in.
spec fn pre_byte_m4(b: Bitmap, x: int, y: int) -> u8 {
    b.spec_row(y)[x / 2]
}

/// The byte and bit a 1-bit pixel lives in stay inside its row.
proof fn lemma_mono1_byte_index(x: int, width: int)
    requires
        0 <= x < width,
        width <= 32767,
    ensures
        0 <= x / 8 < (width + 7) / 8,
        0 <= x % 8 < 8,
{
    assert(0 <= x / 8 && x / 8 < (width + 7) / 8 && 0 <= x % 8 < 8) by (nonlinear_arith)
        requires
            0 <= x < width,
    ;
}

/// The byte and nibble a 4-bit pixel lives in stay inside its row.
proof fn lemma_mono4_byte_index(x: int, width: int)
    requires
        0 <= x < width,
        width <= 32767,
    ensures
        0 <= x / 2 < (width + 1) / 2,
        0 <= x % 2 < 2,
        4 * (x % 2) < 8,
{
    assert(0 <= x / 2 && x / 2 < (width + 1) / 2 && 0 <= x % 2 < 2) by (nonlinear_arith)
        requires
            0 <= x < width,
    ;
}

/// Rewriting one bit of a byte: the chosen bit reads back as written, every
/// other bit position is unchanged.
proof fn lemma_mono1_update(b: u8, sh: u8, v: u8)
    requires
        sh < 8,
        v < 2,
    ensures
        ((((b & !(1u8 << sh)) | (v << sh)) >> sh) & 1) == v,
        forall|sh2: u8|
            sh2 < 8 && sh2 != sh ==> ((((b & !(1u8 << sh)) | (v << sh)) >> sh2) & 1) == ((b >> sh2)
                & 1),
{
    assert(((((b & !(1u8 << sh)) | (v << sh)) >> sh) & 1) == v) by (bit_vector)
        requires
            sh < 8,
            v < 2,
    ;
    assert forall|sh2: u8| sh2 < 8 && sh2 != sh implies ((((b & !(1u8 << sh)) | (v << sh)) >> sh2)
        & 1) == ((b >> sh2) & 1) by {
        assert(((((b & !(1u8 << sh)) | (v << sh)) >> sh2) & 1) == ((b >> sh2) & 1)) by (bit_vector)
            requires
                sh < 8,
                sh2 < 8,
                sh2 != sh,
                v < 2,
        ;
    }
}

/// Rewriting one nibble of a byte: the chosen nibble reads back as written,
/// the other nibble position is unchanged.
proof fn lemma_mono4_update(b: u8, sh: u8, v: u8)
    requires
        sh == 0 || sh == 4,
        v < 16,
    ensures
        ((((b & !(0xFu8 << sh)) | (v << sh)) >> sh) & 0xF) == v,
        forall|sh2: u8|
            (sh2 == 0 || sh2 == 4) && sh2 != sh ==> ((((b & !(0xFu8 << sh)) | (v << sh)) >> sh2)
                & 0xF) == ((b >> sh2) & 0xF),
{
    assert(((((b & !(0xFu8 << sh)) | (v << sh)) >> sh) & 0xF) == v) by (bit_vector)
        requires
            sh == 0 || sh == 4,
            v < 16,
    ;
    assert forall|sh2: u8| (sh2 == 0 || sh2 == 4) && sh2 != sh implies ((((b & !(0xFu8 << sh)) | (v
        << sh)) >> sh2) & 0xF) == ((b >> sh2) & 0xF) by {
        assert(((((b & !(0xFu8 << sh)) | (v << sh)) >> sh2) & 0xF) == ((b >> sh2) & 0xF))
            by (bit_vector)
            requires
                sh == 0 || sh == 4,
                sh2 == 0 || sh2 == 4,
                sh2 != sh,
                v < 16,
        ;
    }
}

/// What `wf` guarantees of the model values, for use outside this module.
pub proof fn lemma_wf_dims(b: Bitmap)
    requires
        b.wf(),
    ensures
        1 <= b.spec_width() <= 32767,
        0 <= b.spec_height() <= 32767,
        b.spec_stride() == spec_row_bytes(b.spec_format(), b.spec_width()),
        b.spec_stride() >= 1,
        forall|y: int| 0 <= y < b.spec_height() ==> (#[trigger] b.spec_row(y)).len() == b.spec_stride(),
{
}

} // verus!
