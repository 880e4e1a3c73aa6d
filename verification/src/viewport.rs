//! The viewport: a clip rectangle plus a drawing origin.
//!
//! Two coordinate systems are in play. "Absolute" coordinates have `(0, 0)`
//! at the top-left of the target bitmap; the viewport's clip rectangle and
//! origin are always absolute. "Relative" coordinates are what drawing calls
//! pass in; they are mapped to absolute ones by adding the origin:
//! `pt_absolute = pt_relative + origin`.

use vstd::prelude::*;

use crate::geometry::{
    fits_i16, spec_has_intersection, spec_intersect, spec_translate, translate_fits, Offset, Rect,
};

verus! {

#[derive(Copy, Clone, Debug, PartialEq, Eq, Structural)]
pub struct Viewport {
    /// Clipping rectangle, in absolute coordinates.
    pub clip: Rect,
    /// Offset applied to all relative coordinates before clipping.
    pub origin: Offset,
}

/// Clipping with an absolute rectangle: the clip shrinks to the
/// intersection, the origin stays.
pub open spec fn spec_absolute_clip(v: Viewport, r: Rect) -> Viewport {
    Viewport { clip: spec_intersect(r, v.clip), origin: v.origin }
}

/// Clipping with a relative rectangle: the rectangle is first mapped to
/// absolute coordinates, the origin stays.
pub open spec fn spec_relative_clip(v: Viewport, r: Rect) -> Viewport {
    Viewport { clip: spec_intersect(spec_translate(r, v.origin), v.clip), origin: v.origin }
}

/// Windowing with a relative rectangle: like `spec_relative_clip`, but the
/// origin moves by as much as the clip's top-left corner moved.
pub open spec fn spec_relative_window(v: Viewport, r: Rect) -> Viewport {
    let clip = spec_intersect(spec_translate(r, v.origin), v.clip);
    Viewport {
        clip,
        origin: Offset {
            x: (v.origin.x + (clip.x0 - v.clip.x0)) as i16,
            y: (v.origin.y + (clip.y0 - v.clip.y0)) as i16,
        },
    }
}

/// True when the arithmetic in `relative_window` stays within 16-bit
/// coordinates.
pub open spec fn relative_window_fits(v: Viewport, r: Rect) -> bool {
    let clip = spec_intersect(spec_translate(r, v.origin), v.clip);
    translate_fits(r, v.origin) && fits_i16(clip.x0 - v.clip.x0) && fits_i16(clip.y0 - v.clip.y0)
        && fits_i16(v.origin.x + (clip.x0 - v.clip.x0)) && fits_i16(
        v.origin.y + (clip.y0 - v.clip.y0),
    )
}

impl Viewport {
    /// A viewport over the given clip rectangle, with the origin at the
    /// absolute `(0, 0)`.
    pub fn new(clip: Rect) -> (v: Viewport)
        ensures
            v.clip == clip,
            v.origin.x == 0 && v.origin.y == 0,
    {
        Viewport { clip, origin: Offset::zero() }
    }

    /// A viewport of the given size with the origin at `(0, 0)`.
    pub fn from_size(size: Offset) -> (v: Viewport)
        ensures
            v.clip == (Rect { x0: 0, y0: 0, x1: size.x, y1: size.y }),
            v.origin.x == 0 && v.origin.y == 0,
    {
        Viewport { clip: Rect::from_size(size), origin: Offset::zero() }
    }

    /// The width of the clip rectangle.
    pub fn width(&self) -> (w: i16)
        requires
            fits_i16(self.clip.x1 - self.clip.x0),
        ensures
            w == self.clip.x1 - self.clip.x0,
    {
        self.clip.width()
    }

    /// The height of the clip rectangle.
    pub fn height(&self) -> (h: i16)
        requires
            fits_i16(self.clip.y1 - self.clip.y0),
        ensures
            h == self.clip.y1 - self.clip.y0,
    {
        self.clip.height()
    }

    /// True when the rectangle, given in relative coordinates, intersects
    /// the clip.
    pub fn contains(&self, r: Rect) -> (b: bool)
        requires
            translate_fits(r, self.origin),
        ensures
            b == spec_has_intersection(spec_translate(r, self.origin), self.clip),
    {
        r.translate(self.origin).has_intersection(self.clip)
    }

    /// Shifts both the clip and the origin by the same absolute offset.
    pub fn translate(self, offset: Offset) -> (v: Viewport)
        requires
            translate_fits(self.clip, offset),
            fits_i16(self.origin.x + offset.x),
            fits_i16(self.origin.y + offset.y),
        ensures
            v.clip == spec_translate(self.clip, offset),
            v.origin.x == self.origin.x + offset.x,
            v.origin.y == self.origin.y + offset.y,
    {
        Viewport { clip: self.clip.translate(offset), origin: self.origin.add(offset) }
    }

    /// Replaces the origin; the clip stays.
    pub fn with_origin(self, origin: Offset) -> (v: Viewport)
        ensures
            v.clip == self.clip,
            v.origin == origin,
    {
        Viewport { origin, ..self }
    }

    /// Restricts the clip to the given absolute rectangle. The origin is
    /// unchanged and the clip never grows.
    pub fn absolute_clip(self, r: Rect) -> (v: Viewport)
        ensures
            v == spec_absolute_clip(self, r),
            v.clip == spec_intersect(r, self.clip),
            v.origin == self.origin,
    {
        Viewport { clip: r.intersect(self.clip), ..self }
    }

    /// Restricts the clip to the given relative rectangle. The origin is
    /// unchanged and the clip never grows.
    pub fn relative_clip(self, r: Rect) -> (v: Viewport)
        requires
            translate_fits(r, self.origin),
        ensures
            v == spec_relative_clip(self, r),
            v.origin == self.origin,
    {
        Viewport { clip: r.translate(self.origin).intersect(self.clip), ..self }
    }

    /// Restricts the clip to the given relative rectangle and re-anchors
    /// the origin, so that the windowed scope sees its rectangle as local
    /// `(0, 0)`.
    pub fn relative_window(&self, r: Rect) -> (v: Viewport)
        requires
            relative_window_fits(*self, r),
        ensures
            v == spec_relative_window(*self, r),
    {
        let clip = r.translate(self.origin).intersect(self.clip);
        let origin = self.origin.add(clip.top_left().sub_point(self.clip.top_left()));
        Viewport { clip, origin }
    }
}

/// Law: clipping with an absolute rectangle intersects the clip with that
/// rectangle and leaves the origin unchanged.
pub proof fn lemma_absolute_clip(v: Viewport, r: Rect)
    ensures
        spec_absolute_clip(v, r).clip == spec_intersect(r, v.clip),
        spec_absolute_clip(v, r).origin == v.origin,
{
}

/// Law: the origin of `relative_window(r)` is the old origin moved by the
/// displacement of the clip's top-left corner.
pub proof fn lemma_relative_window_origin(v: Viewport, r: Rect)
    requires
        relative_window_fits(v, r),
    ensures
        spec_relative_window(v, r).origin.x == v.origin.x + (spec_relative_window(v, r).clip.x0
            - v.clip.x0),
        spec_relative_window(v, r).origin.y == v.origin.y + (spec_relative_window(v, r).clip.y0
            - v.clip.y0),
{
}

/// Law: when a viewport is anchored (its origin sits on its clip's
/// top-left corner, as `from_size` and `relative_window` itself produce),
/// `relative_window` keeps it anchored: the new clip's top-left corner is
/// the point the new origin maps relative `(0, 0)` to.
pub proof fn lemma_relative_window_anchored(v: Viewport, r: Rect)
    requires
        relative_window_fits(v, r),
        v.origin.x == v.clip.x0,
        v.origin.y == v.clip.y0,
    ensures
        spec_relative_window(v, r).origin.x == spec_relative_window(v, r).clip.x0,
        spec_relative_window(v, r).origin.y == spec_relative_window(v, r).clip.y0,
{
}

} // verus!
