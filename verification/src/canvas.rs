//! The 16-bit (RGB565) drawing canvas.
//!
//! A canvas owns a bitmap and a viewport. Every coordinate handed to a
//! drawing operation is relative to the viewport: the operation translates
//! it by the viewport's origin, clips it against the viewport's clip
//! rectangle and the bitmap bounds, and silently does nothing for whatever
//! falls outside — clipping is never an error. A drawing call whose
//! effective region is empty touches no pixel at all.

use vstd::prelude::*;

use crate::bitmap::{Bitmap, BitmapView};
use crate::blur::{acquire_blur_window, spec_blur_scratch_bytes, BlurWindow};
use crate::cache::DrawingCache;
use crate::color::{spec_blend, Color};
use crate::format::{pack16, spec_pack16, BitmapFormat};
use crate::geometry::{fits_i16, spec_translate, translate_fits, Offset, Point, Rect};
use crate::viewport::{spec_absolute_clip, Viewport};

verus! {

pub struct Rgb565Canvas {
    bitmap: Bitmap,
    viewport: Viewport,
}

impl Rgb565Canvas {
    pub closed spec fn spec_bitmap(self) -> Bitmap {
        self.bitmap
    }

    pub closed spec fn spec_viewport(self) -> Viewport {
        self.viewport
    }

    pub open spec fn wf(self) -> bool {
        self.spec_bitmap().wf() && self.spec_bitmap().spec_format() == BitmapFormat::RGB565
    }

    /// The effective region of a drawing call with the relative rectangle
    /// `r`: translated by the origin, cut by the viewport clip and the
    /// bitmap bounds.
    pub open spec fn spec_effective(self, r: Rect) -> Rect {
        self.spec_bitmap().spec_clipped(
            spec_translate(r, self.spec_viewport().origin),
            self.spec_viewport().clip,
        )
    }

    /// Creates a canvas with the given size over the supplied buffer.
    ///
    /// Optionally a minimal height can be given; the canvas height is then
    /// adjusted down to the buffer size as long as it reaches that
    /// minimum. Returns `None` when the buffer is not big enough.
    pub fn new(size: Offset, min_height: Option<i16>, buff: Vec<u8>) -> (r: Option<Rgb565Canvas>)
        ensures
            r.is_some() <==> Bitmap::spec_new_height(
                BitmapFormat::RGB565,
                None,
                size,
                min_height,
                buff@.len() as int,
            ) >= 0,
            r.is_some() ==> {
                let c = r.unwrap();
                &&& c.wf()
                &&& c.spec_bitmap().spec_width() == size.x as int
                &&& c.spec_bitmap().spec_height() == Bitmap::spec_new_height(
                    BitmapFormat::RGB565,
                    None,
                    size,
                    min_height,
                    buff@.len() as int,
                )
                &&& c.spec_viewport().origin.x == 0 && c.spec_viewport().origin.y == 0
                &&& c.spec_viewport().clip == c.spec_bitmap().spec_bounds()
            },
    {
        let bitmap = match Bitmap::new_mut(BitmapFormat::RGB565, None, size, min_height, buff) {
            Some(b) => b,
            None => {
                return None;
            },
        };
        let viewport = Viewport::from_size(bitmap.size());
        Some(Rgb565Canvas { bitmap, viewport })
    }

    /// The size of the backing bitmap.
    pub fn size(&self) -> (s: Offset)
        ensures
            s.x == self.spec_bitmap().spec_width(),
            s.y == self.spec_bitmap().spec_height(),
    {
        self.bitmap.size()
    }

    /// The rectangle covering the whole canvas.
    pub fn bounds(&self) -> (r: Rect)
        ensures
            r == self.spec_bitmap().spec_bounds(),
    {
        self.bitmap.bounds()
    }

    pub fn viewport(&self) -> (v: Viewport)
        ensures
            v == self.spec_viewport(),
    {
        self.viewport
    }

    /// Replaces the viewport; it is always re-clipped to the canvas's own
    /// bounds first, so that a canvas is never given a viewport extending
    /// past its backing bitmap.
    pub fn set_viewport(&mut self, viewport: Viewport)
        requires
            old(self).wf(),
        ensures
            final(self).wf(),
            final(self).spec_bitmap() == old(self).spec_bitmap(),
            final(self).spec_viewport() == spec_absolute_clip(
                viewport,
                old(self).spec_bitmap().spec_bounds(),
            ),
    {
        let b = self.bitmap.bounds();
        self.viewport = viewport.absolute_clip(b);
    }

    /// A read-only view of the canvas's pixels.
    pub fn view(&self) -> (v: BitmapView<'_>)
        ensures
            *v.bitmap == self.spec_bitmap(),
    {
        BitmapView::new(&self.bitmap)
    }

    /// A copy of the pixels of the given row, or `None` when the row is
    /// outside the canvas. Writing a changed row back goes through
    /// `write_row`.
    pub fn row_mut(&mut self, row: i16) -> (r: Option<Vec<u16>>)
        requires
            old(self).wf(),
        ensures
            *final(self) == *old(self),
            r.is_some() <==> 0 <= row < old(self).spec_bitmap().spec_height(),
            r.is_some() ==> {
                let v = r.unwrap();
                &&& v@.len() == old(self).spec_bitmap().spec_width()
                &&& forall|i: int|
                    0 <= i < v@.len() ==> #[trigger] v@[i] == old(self).spec_bitmap().spec_px(
                        i,
                        row as int,
                    )
            },
    {
        if 0 <= row && row < self.bitmap.height() {
            proof {
                crate::bitmap::lemma_wf_dims(self.spec_bitmap());
            }
            let w: i16 = self.bitmap.width();
            Some(self.bitmap.read_row16(row as usize, 0, w as usize))
        } else {
            None
        }
    }

    /// Writes a full row of pixels; `false` (and no change) when the row
    /// is outside the canvas.
    pub fn write_row(&mut self, row: i16, pixels: &Vec<u16>) -> (ok: bool)
        requires
            old(self).wf(),
            pixels@.len() == old(self).spec_bitmap().spec_width(),
        ensures
            final(self).wf(),
            Bitmap::same_shape(old(self).spec_bitmap(), final(self).spec_bitmap()),
            final(self).spec_viewport() == old(self).spec_viewport(),
            ok <==> 0 <= row < old(self).spec_bitmap().spec_height(),
            ok ==> forall|i: int|
                0 <= i < pixels@.len() ==> #[trigger] final(self).spec_bitmap().spec_px(
                    i,
                    row as int,
                ) == pixels@[i],
            ok ==> forall|xx: int, yy: int|
                0 <= xx < old(self).spec_bitmap().spec_width() && 0 <= yy < old(self).spec_bitmap().spec_height() && yy != row as int ==> #[trigger] final(self).spec_bitmap().spec_px(xx, yy) == old(self).spec_bitmap().spec_px(xx, yy),
            !ok ==> *final(self) == *old(self),
    {
        if 0 <= row && row < self.bitmap.height() {
            self.bitmap.write_row16(row as usize, 0, pixels);
            proof {
                assert forall|i: int| 0 <= i < pixels@.len() implies #[trigger] self.spec_bitmap(
                ).spec_px(i, row as int) == pixels@[i] by {
                    assert(self.spec_bitmap().spec_px(0 + i, row as int) == pixels@[i]);
                }
            }
            true
        } else {
            false
        }
    }

    /// Fills the relative rectangle `r` with `color`, blended with the
    /// given alpha; pixels outside the effective region are untouched, and
    /// an empty effective region is a true no-op.
    pub fn fill_rect(&mut self, r: Rect, color: Color, alpha: u8)
        requires
            old(self).wf(),
            translate_fits(r, old(self).spec_viewport().origin),
        ensures
            final(self).wf(),
            Bitmap::same_shape(old(self).spec_bitmap(), final(self).spec_bitmap()),
            final(self).spec_viewport() == old(self).spec_viewport(),
            forall|xx: int, yy: int|
                0 <= xx < old(self).spec_bitmap().spec_width() && 0 <= yy < old(self).spec_bitmap().spec_height() && old(self).spec_effective(r).spec_contains(xx, yy)
                    ==> #[trigger] final(self).spec_bitmap().spec_px(xx, yy)
                    == Bitmap::spec_fill_px16(
                    old(self).spec_bitmap().spec_px(xx, yy),
                    color,
                    alpha as int,
                ),
            forall|xx: int, yy: int|
                0 <= xx < old(self).spec_bitmap().spec_width() && 0 <= yy < old(self).spec_bitmap().spec_height() && !old(self).spec_effective(r).spec_contains(xx, yy)
                    ==> #[trigger] final(self).spec_bitmap().spec_px(xx, yy) == old(self).spec_bitmap().spec_px(xx, yy),
            old(self).spec_effective(r).spec_is_empty() ==> *final(self) == *old(self),
    {
        let tr: Rect = r.translate(self.viewport.origin);
        let clip: Rect = self.viewport.clip;
        self.bitmap.rgb565_fill(tr, clip, color, alpha);
    }

    /// Opaque copy of a source view into the relative rectangle `r`.
    pub fn draw_bitmap(&mut self, r: Rect, bitmap: BitmapView<'_>)
        requires
            old(self).wf(),
            translate_fits(r, old(self).spec_viewport().origin),
            bitmap.bitmap.wf(),
            bitmap.bitmap.spec_format() == BitmapFormat::RGB565,
        ensures
            final(self).wf(),
            Bitmap::same_shape(old(self).spec_bitmap(), final(self).spec_bitmap()),
            final(self).spec_viewport() == old(self).spec_viewport(),
            forall|xx: int, yy: int|
                0 <= xx < old(self).spec_bitmap().spec_width() && 0 <= yy < old(self).spec_bitmap().spec_height() && old(self).spec_bitmap().spec_clipped_src(
                    spec_translate(r, old(self).spec_viewport().origin),
                    old(self).spec_viewport().clip,
                    *bitmap.bitmap,
                ).spec_contains(xx, yy) ==> #[trigger] final(self).spec_bitmap().spec_px(xx, yy)
                    == bitmap.bitmap.spec_px(
                    xx - (spec_translate(r, old(self).spec_viewport().origin)).x0,
                    yy - (spec_translate(r, old(self).spec_viewport().origin)).y0,
                ),
            forall|xx: int, yy: int|
                0 <= xx < old(self).spec_bitmap().spec_width() && 0 <= yy < old(self).spec_bitmap().spec_height() && !old(self).spec_bitmap().spec_clipped_src(
                    spec_translate(r, old(self).spec_viewport().origin),
                    old(self).spec_viewport().clip,
                    *bitmap.bitmap,
                ).spec_contains(xx, yy) ==> #[trigger] final(self).spec_bitmap().spec_px(xx, yy)
                    == old(self).spec_bitmap().spec_px(xx, yy),
    {
        let tr: Rect = r.translate(self.viewport.origin);
        let clip: Rect = self.viewport.clip;
        self.bitmap.rgb565_copy(tr, clip, &bitmap);
    }

    /// Per-pixel alpha composite of a 32-bit source view onto the relative
    /// rectangle `r`.
    pub fn blend_bitmap(&mut self, r: Rect, src: BitmapView<'_>)
        requires
            old(self).wf(),
            translate_fits(r, old(self).spec_viewport().origin),
            src.bitmap.wf(),
            src.bitmap.spec_format() == BitmapFormat::RGBA8888,
        ensures
            final(self).wf(),
            Bitmap::same_shape(old(self).spec_bitmap(), final(self).spec_bitmap()),
            final(self).spec_viewport() == old(self).spec_viewport(),
            forall|xx: int, yy: int|
                0 <= xx < old(self).spec_bitmap().spec_width() && 0 <= yy < old(self).spec_bitmap().spec_height() && old(self).spec_bitmap().spec_clipped_src(
                    spec_translate(r, old(self).spec_viewport().origin),
                    old(self).spec_viewport().clip,
                    *src.bitmap,
                ).spec_contains(xx, yy) ==> #[trigger] final(self).spec_bitmap().spec_px(xx, yy)
                    == Bitmap::spec_blend_px16(
                    old(self).spec_bitmap().spec_px(xx, yy),
                    src.bitmap.spec_px(
                        xx - (spec_translate(r, old(self).spec_viewport().origin)).x0,
                        yy - (spec_translate(r, old(self).spec_viewport().origin)).y0,
                    ),
                ),
            forall|xx: int, yy: int|
                0 <= xx < old(self).spec_bitmap().spec_width() && 0 <= yy < old(self).spec_bitmap().spec_height() && !old(self).spec_bitmap().spec_clipped_src(
                    spec_translate(r, old(self).spec_viewport().origin),
                    old(self).spec_viewport().clip,
                    *src.bitmap,
                ).spec_contains(xx, yy) ==> #[trigger] final(self).spec_bitmap().spec_px(xx, yy)
                    == old(self).spec_bitmap().spec_px(xx, yy),
            old(self).spec_bitmap().spec_clipped_src(
                spec_translate(r, old(self).spec_viewport().origin),
                old(self).spec_viewport().clip,
                *src.bitmap,
            ).spec_is_empty() ==> *final(self) == *old(self),
    {
        let tr: Rect = r.translate(self.viewport.origin);
        let clip: Rect = self.viewport.clip;
        self.bitmap.rgb565_blend(tr, clip, &src);
    }

    /// Writes one pixel at the relative point `pt`; a point outside the
    /// clip or the canvas is a no-op.
    pub fn draw_pixel(&mut self, pt: Point, color: Color)
        requires
            old(self).wf(),
            fits_i16(pt.x + old(self).spec_viewport().origin.x),
            fits_i16(pt.y + old(self).spec_viewport().origin.y),
        ensures
            final(self).wf(),
            Bitmap::same_shape(old(self).spec_bitmap(), final(self).spec_bitmap()),
            final(self).spec_viewport() == old(self).spec_viewport(),
            ({
                let ax = pt.x + old(self).spec_viewport().origin.x;
                let ay = pt.y + old(self).spec_viewport().origin.y;
                if old(self).spec_viewport().clip.spec_contains(ax, ay) && old(self).spec_bitmap().spec_bounds().spec_contains(ax, ay) {
                    &&& final(self).spec_bitmap().spec_px(ax, ay) == spec_pack16(color)
                    &&& forall|xx: int, yy: int|
                        0 <= xx < old(self).spec_bitmap().spec_width() && 0 <= yy < old(self).spec_bitmap().spec_height() && !(xx == ax && yy == ay)
                            ==> #[trigger] final(self).spec_bitmap().spec_px(xx, yy) == old(self).spec_bitmap().spec_px(xx, yy)
                } else {
                    *final(self) == *old(self)
                }
            }),
    {
        let p: Point = pt.add_ofs(self.viewport.origin);
        if self.viewport.clip.contains(p) && self.bitmap.bounds().contains(p) {
            proof {
                crate::bitmap::lemma_wf_dims(self.spec_bitmap());
            }
            let px: u16 = pack16(color);
            self.bitmap.set_px(p.x as usize, p.y as usize, px as u32);
        }
    }

    /// Reads the pixel at the relative point `pt`, composites `color` over
    /// it with the given alpha, and writes it back; a point outside the
    /// clip or the canvas is a no-op.
    pub fn blend_pixel(&mut self, pt: Point, color: Color, alpha: u8)
        requires
            old(self).wf(),
            fits_i16(pt.x + old(self).spec_viewport().origin.x),
            fits_i16(pt.y + old(self).spec_viewport().origin.y),
        ensures
            final(self).wf(),
            Bitmap::same_shape(old(self).spec_bitmap(), final(self).spec_bitmap()),
            final(self).spec_viewport() == old(self).spec_viewport(),
            ({
                let ax = pt.x + old(self).spec_viewport().origin.x;
                let ay = pt.y + old(self).spec_viewport().origin.y;
                if old(self).spec_viewport().clip.spec_contains(ax, ay) && old(self).spec_bitmap().spec_bounds().spec_contains(ax, ay) {
                    &&& final(self).spec_bitmap().spec_px(ax, ay) == spec_pack16(
                        spec_blend(
                            crate::format::spec_unpack16(old(self).spec_bitmap().spec_px(ax, ay)),
                            color,
                            alpha as int,
                        ),
                    )
                    &&& forall|xx: int, yy: int|
                        0 <= xx < old(self).spec_bitmap().spec_width() && 0 <= yy < old(self).spec_bitmap().spec_height() && !(xx == ax && yy == ay)
                            ==> #[trigger] final(self).spec_bitmap().spec_px(xx, yy) == old(self).spec_bitmap().spec_px(xx, yy)
                } else {
                    *final(self) == *old(self)
                }
            }),
    {
        let p: Point = pt.add_ofs(self.viewport.origin);
        if self.viewport.clip.contains(p) && self.bitmap.bounds().contains(p) {
            proof {
                crate::bitmap::lemma_wf_dims(self.spec_bitmap());
            }
            let cur: u32 = self.bitmap.get_px(p.x as usize, p.y as usize);
            let bg: Color = crate::format::unpack16(cur as u16);
            let px: u16 = pack16(bg.blend(color, alpha));
            self.bitmap.set_px(p.x as usize, p.y as usize, px as u32);
        }
    }

    /// Blurs the relative rectangle `r` with the given radius, streaming
    /// rows through a bounded window drawn from the cache's blur arena.
    ///
    /// A region whose clipped width or height does not exceed
    /// `2 * radius - 1` is too small for the kernel and is left untouched,
    /// as is everything outside the clipped region; when the blur runs,
    /// every pixel of the region becomes the clamped box average of its
    /// clipped neighbourhood in the original region. When the arena
    /// cannot supply the scratch window, the region is left undrawn:
    /// there is nowhere to get more memory, so the draw is dropped, not
    /// retried.
    pub fn blur_rect(&mut self, r: Rect, radius: usize, cache: &mut DrawingCache)
        requires
            old(self).wf(),
            old(cache).wf(),
            radius <= 127,
            translate_fits(r, old(self).spec_viewport().origin),
        ensures
            final(self).wf(),
            final(cache).wf(),
            Bitmap::same_shape(old(self).spec_bitmap(), final(self).spec_bitmap()),
            final(self).spec_viewport() == old(self).spec_viewport(),
            final(cache).spec_capacity_a() == old(cache).spec_capacity_a(),
            final(cache).spec_capacity_b() == old(cache).spec_capacity_b(),
            final(cache).spec_used_a() == old(cache).spec_used_a(),
            final(cache).spec_used_b() >= old(cache).spec_used_b(),
            forall|xx: int, yy: int|
                0 <= xx < old(self).spec_bitmap().spec_width() && 0 <= yy < old(
                    self,
                ).spec_bitmap().spec_height() && !old(self).spec_effective(r).spec_contains(xx, yy)
                    ==> #[trigger] final(self).spec_bitmap().spec_px(xx, yy) == old(
                    self,
                ).spec_bitmap().spec_px(xx, yy),
            (radius == 0 || old(self).spec_effective(r).x1 - old(self).spec_effective(r).x0 <= 2
                * radius - 1 || old(self).spec_effective(r).y1 - old(self).spec_effective(r).y0
                <= 2 * radius - 1) ==> *final(self) == *old(self) && *final(cache) == *old(cache),
            ({
                let e = old(self).spec_effective(r);
                let need = spec_blur_scratch_bytes(e.x1 - e.x0, radius as int);
                (radius >= 1 && e.x1 - e.x0 > 2 * radius - 1 && e.y1 - e.y0 > 2 * radius - 1)
                    ==> ((old(cache).spec_used_b() + need <= old(cache).spec_capacity_b()
                    ==> final(cache).spec_used_b() == old(cache).spec_used_b() + need) && (old(
                    cache,
                ).spec_used_b() + need > old(cache).spec_capacity_b() ==> *final(self) == *old(self)
                    && *final(cache) == *old(cache)))
            }),
            ({
                let e = old(self).spec_effective(r);
                let need = spec_blur_scratch_bytes(e.x1 - e.x0, radius as int);
                (radius >= 1 && e.x1 - e.x0 > 2 * radius - 1 && e.y1 - e.y0 > 2 * radius - 1
                    && old(cache).spec_used_b() + need <= old(cache).spec_capacity_b())
                    ==> forall|xx: int, yy: int|
                    e.spec_contains(xx, yy) ==> #[trigger] final(self).spec_bitmap().spec_px(
                        xx,
                        yy,
                    ) == spec_blur_px(
                        old(self).spec_bitmap(),
                        e,
                        radius as int,
                        xx - e.x0,
                        yy - e.y0,
                    )
            }),
    {
        let eff: Rect = r.translate(self.viewport.origin).intersect(self.viewport.clip).intersect(
            self.bitmap.bounds(),
        );
        proof {
            assert(eff == old(self).spec_effective(r));
        }
        let w: i16 = eff.x1 - eff.x0;
        let h: i16 = eff.y1 - eff.y0;
        if radius == 0 || w as usize <= 2 * radius - 1 || h as usize <= 2 * radius - 1 {
            return ;
        }
        let wpx: usize = w as usize;
        let hpx: usize = h as usize;
        let mut window: BlurWindow = match acquire_blur_window(cache, wpx, hpx, radius) {
            Some(win) => win,
            None => {
                return ;
            },
        };
        let ghost pre = *self;
        proof {
            crate::bitmap::lemma_wf_dims(pre.spec_bitmap());
            assert(eff.x0 >= 0 && eff.y0 >= 0);
            assert(eff.x1 <= pre.spec_bitmap().spec_bounds().x1);
            assert(eff.y1 <= pre.spec_bitmap().spec_bounds().y1);
        }
        let x0: usize = eff.x0 as usize;
        let y0: usize = eff.y0 as usize;
        loop
            invariant_except_break
                window.spec_popped() < hpx,
            invariant
                self.wf(),
                Bitmap::same_shape(pre.spec_bitmap(), self.spec_bitmap()),
                self.spec_viewport() == pre.spec_viewport(),
                window.wf(),
                window.spec_width() == wpx,
                window.spec_height() == hpx,
                window.spec_radius() == radius,
                1 <= radius,
                eff == pre.spec_effective(r),
                0 <= eff.x0 && 0 <= eff.y0,
                eff.x0 + wpx <= pre.spec_bitmap().spec_width(),
                eff.y0 + hpx <= pre.spec_bitmap().spec_height(),
                x0 == eff.x0 && y0 == eff.y0,
                wpx == eff.x1 - eff.x0 && hpx == eff.y1 - eff.y0,
                window.spec_window().len() == window.spec_pushed() - window.spec_front(),
                forall|i: int, xr: int|
                    0 <= i < window.spec_window().len() && 0 <= xr < wpx
                        ==> #[trigger] window.spec_window()[i]@[xr] == pre.spec_bitmap().spec_px(
                        x0 + xr,
                        y0 + window.spec_front() + i,
                    ),
                window.spec_pushed() < hpx ==> window.spec_popped() == (
                if window.spec_pushed() >= radius {
                    window.spec_pushed() - radius
                } else {
                    0
                }),
                window.spec_pushed() == hpx ==> window.spec_popped() >= hpx - radius - 1,
                forall|xx: int, yy: int|
                    0 <= xx < pre.spec_bitmap().spec_width() && 0 <= yy < pre.spec_bitmap(
                    ).spec_height() && !eff.spec_contains(xx, yy) ==> #[trigger] self.spec_bitmap(
                    ).spec_px(xx, yy) == pre.spec_bitmap().spec_px(xx, yy),
                forall|xx: int, yy: int|
                    0 <= xx < pre.spec_bitmap().spec_width() && 0 <= yy < pre.spec_bitmap(
                    ).spec_height() && eff.spec_contains(xx, yy) && yy - y0
                        >= window.spec_popped() ==> #[trigger] self.spec_bitmap().spec_px(xx, yy)
                        == pre.spec_bitmap().spec_px(xx, yy),
                forall|xx: int, yy: int|
                    0 <= xx < pre.spec_bitmap().spec_width() && 0 <= yy < pre.spec_bitmap(
                    ).spec_height() && eff.spec_contains(xx, yy) && yy - y0 < window.spec_popped()
                        ==> #[trigger] self.spec_bitmap().spec_px(xx, yy) == spec_blur_px(
                        pre.spec_bitmap(),
                        eff,
                        radius as int,
                        xx - eff.x0,
                        yy - eff.y0,
                    ),
            ensures
                self.wf(),
                Bitmap::same_shape(pre.spec_bitmap(), self.spec_bitmap()),
                self.spec_viewport() == pre.spec_viewport(),
                window.spec_popped() == hpx,
                forall|xx: int, yy: int|
                    0 <= xx < pre.spec_bitmap().spec_width() && 0 <= yy < pre.spec_bitmap(
                    ).spec_height() && !eff.spec_contains(xx, yy) ==> #[trigger] self.spec_bitmap(
                    ).spec_px(xx, yy) == pre.spec_bitmap().spec_px(xx, yy),
                forall|xx: int, yy: int|
                    0 <= xx < pre.spec_bitmap().spec_width() && 0 <= yy < pre.spec_bitmap(
                    ).spec_height() && eff.spec_contains(xx, yy) && yy - y0 < window.spec_popped()
                        ==> #[trigger] self.spec_bitmap().spec_px(xx, yy) == spec_blur_px(
                        pre.spec_bitmap(),
                        eff,
                        radius as int,
                        xx - eff.x0,
                        yy - eff.y0,
                    ),
            decreases 2 * window.spec_height() - window.spec_pushed() - window.spec_popped(),
        {
            proof {
                window.lemma_no_deadlock();
                window.lemma_window_bounds();
            }
            let ghost w_top = window;
            if let Some(y) = window.push_ready() {
                let row: Vec<u16> = self.bitmap.read_row16(y0 + y, x0, x0 + wpx);
                proof {
                    // The row being read lies at or below every row already
                    // popped, so it still holds the original pixels.
                    assert forall|xr: int| 0 <= xr < wpx implies #[trigger] row@[xr]
                        == pre.spec_bitmap().spec_px(x0 + xr, y0 + y) by {
                        assert(eff.spec_contains(x0 + xr, y0 + y as int));
                        assert(self.spec_bitmap().spec_px(x0 + xr, y0 + y as int)
                            == pre.spec_bitmap().spec_px(x0 + xr, y0 + y as int));
                    }
                }
                window.push(&row);
                proof {
                    assert forall|i: int, xr: int|
                        0 <= i < window.spec_window().len() && 0 <= xr < wpx implies
                        #[trigger] window.spec_window()[i]@[xr] == pre.spec_bitmap().spec_px(
                        x0 + xr,
                        y0 + window.spec_front() + i,
                    ) by {
                        if i < w_top.spec_window().len() {
                            assert(window.spec_window()[i] == w_top.spec_window()[i]);
                        } else {
                            assert(window.spec_window()[i]@ == row@);
                        }
                    }
                }
            }
            let ghost wp = window;
            if let Some(_) = window.pop_ready() {
                let (y, row) = window.pop();
                proof {
                    let r_ = radius as int;
                    let ylo: int = if y as int >= r_ {
                        y as int - r_
                    } else {
                        0
                    };
                    let yhi: int = if y as int + r_ + 1 <= hpx {
                        y as int + r_ + 1
                    } else {
                        hpx as int
                    };
                    // The window the pop read held exactly the original
                    // region rows `ylo .. yhi`.
                    assert(wp.spec_front() == ylo);
                    assert(wp.spec_pushed() == yhi);
                    assert(wp.spec_window().len() == yhi - ylo);
                    assert forall|xr: int| 0 <= xr < wpx implies #[trigger] row@[xr]
                        == spec_blur_px(pre.spec_bitmap(), eff, r_, xr, y as int) by {
                        let xlo: int = if xr >= r_ {
                            xr - r_
                        } else {
                            0
                        };
                        let xhi: int = if xr + r_ + 1 <= wpx {
                            xr + r_ + 1
                        } else {
                            wpx as int
                        };
                        lemma_range_sum_matches_px(
                            wp.spec_window(),
                            pre.spec_bitmap(),
                            xlo,
                            xhi,
                            x0 as int,
                            y0 + ylo,
                        );
                    }
                    // Window correspondence survives the eviction.
                    assert forall|i: int, xr: int|
                        0 <= i < window.spec_window().len() && 0 <= xr < wpx implies
                        #[trigger] window.spec_window()[i]@[xr] == pre.spec_bitmap().spec_px(
                        x0 + xr,
                        y0 + window.spec_front() + i,
                    ) by {
                        let k = window.spec_front() - wp.spec_front();
                        assert(window.spec_window()[i] == wp.spec_window()[i + k]);
                    }
                }
                self.bitmap.write_row16(y0 + y, x0, &row);
                proof {
                    assert forall|xx: int, yy: int|
                        0 <= xx < pre.spec_bitmap().spec_width() && 0 <= yy < pre.spec_bitmap(
                        ).spec_height() && eff.spec_contains(xx, yy) && yy - y0
                            < window.spec_popped() implies #[trigger] self.spec_bitmap().spec_px(
                        xx,
                        yy,
                    ) == spec_blur_px(
                        pre.spec_bitmap(),
                        eff,
                        radius as int,
                        xx - eff.x0,
                        yy - eff.y0,
                    ) by {
                        if yy == y0 + y as int {
                            assert(self.spec_bitmap().spec_px(x0 + (xx - x0), yy) == row@[xx
                                - x0]);
                        }
                    }
                }
                if y + 1 == hpx {
                    break ;
                }
            }
        }
    }
}

/// Sum of the stored 16-bit pixels of absolute column `x` over the
/// absolute rows `ylo .. yhi`.
pub open spec fn px_col_sum(b: Bitmap, x: int, ylo: int, yhi: int) -> int
    decreases yhi - ylo,
{
    if ylo >= yhi {
        0
    } else {
        b.spec_px(x, ylo) + px_col_sum(b, x, ylo + 1, yhi)
    }
}

/// Sum of the stored 16-bit pixels of the absolute rectangle
/// `xlo .. xhi` by `ylo .. yhi`.
pub open spec fn px_rect_sum(b: Bitmap, xlo: int, xhi: int, ylo: int, yhi: int) -> int
    decreases xhi - xlo,
{
    if xlo >= xhi {
        0
    } else {
        px_col_sum(b, xlo, ylo, yhi) + px_rect_sum(b, xlo + 1, xhi, ylo, yhi)
    }
}

/// The blurred value of the pixel at `(x, y)` relative to the region
/// `eff`: the average of the region's pixels within `radius` of it, the
/// neighbourhood clipped at the region's edges, clamped at the largest
/// 16-bit value.
pub open spec fn spec_blur_px(b: Bitmap, eff: Rect, radius: int, x: int, y: int) -> int {
    let w = eff.x1 - eff.x0;
    let h = eff.y1 - eff.y0;
    let ylo = if y >= radius {
        y - radius
    } else {
        0
    };
    let yhi = if y + radius + 1 <= h {
        y + radius + 1
    } else {
        h
    };
    let xlo = if x >= radius {
        x - radius
    } else {
        0
    };
    let xhi = if x + radius + 1 <= w {
        x + radius + 1
    } else {
        w
    };
    let s = px_rect_sum(b, eff.x0 + xlo, eff.x0 + xhi, eff.y0 + ylo, eff.y0 + yhi);
    let d = (yhi - ylo) * (xhi - xlo);
    if s / d > 65535 {
        65535
    } else {
        s / d
    }
}

/// A window column sum equals the pixel column sum it mirrors.
proof fn lemma_col_sum_matches_px(ws: Seq<Vec<u16>>, b: Bitmap, x: int, ax: int, ylo: int)
    requires
        forall|i: int| 0 <= i < ws.len() ==> (#[trigger] ws[i])@[x] == b.spec_px(ax, ylo + i),
    ensures
        crate::blur::col_sum(ws, x) == px_col_sum(b, ax, ylo, ylo + ws.len()),
    decreases ws.len(),
{
    if ws.len() == 0 {
    } else {
        assert forall|i: int| 0 <= i < ws.drop_first().len() implies (#[trigger] ws.drop_first()[
            i
        ])@[x] == b.spec_px(ax, ylo + 1 + i) by {
            assert(ws.drop_first()[i] == ws[i + 1]);
        }
        lemma_col_sum_matches_px(ws.drop_first(), b, x, ax, ylo + 1);
        assert(px_col_sum(b, ax, ylo, ylo + ws.len()) == b.spec_px(ax, ylo) + px_col_sum(
            b,
            ax,
            ylo + 1,
            ylo + ws.len(),
        ));
    }
}

/// A ranged window sum equals the pixel rectangle sum it mirrors.
proof fn lemma_range_sum_matches_px(
    ws: Seq<Vec<u16>>,
    b: Bitmap,
    xlo: int,
    xhi: int,
    x0: int,
    ylo: int,
)
    requires
        forall|i: int, x: int|
            0 <= i < ws.len() && xlo <= x < xhi ==> #[trigger] ws[i]@[x] == b.spec_px(
                x0 + x,
                ylo + i,
            ),
    ensures
        crate::blur::range_col_sum(ws, xlo, xhi) == px_rect_sum(
            b,
            x0 + xlo,
            x0 + xhi,
            ylo,
            ylo + ws.len(),
        ),
    decreases xhi - xlo,
{
    if xlo < xhi {
        lemma_col_sum_matches_px(ws, b, xlo, x0 + xlo, ylo);
        lemma_range_sum_matches_px(ws, b, xlo + 1, xhi, x0, ylo);
        assert(px_rect_sum(b, x0 + xlo, x0 + xhi, ylo, ylo + ws.len()) == px_col_sum(
            b,
            x0 + xlo,
            ylo,
            ylo + ws.len(),
        ) + px_rect_sum(b, x0 + xlo + 1, x0 + xhi, ylo, ylo + ws.len()));
    }
}

} // verus!
