//! One rendering pass over the hardware frame buffer.
//!
//! The display driver hands over the frame-buffer bytes and, after the
//! pass, triggers the hardware refresh; both live outside this library.
//! `begin_frame` does the verified part of the pass setup: it builds a
//! full-screen 16-bit canvas over the buffer, applies the optional
//! top-level clip, fills the optional background, and hands out freshly
//! reset scratch arenas. A buffer that cannot back the declared screen is
//! a misconfiguration with no recovery: no canvas is produced and the
//! caller must not render.

use vstd::prelude::*;

use crate::bitmap::Bitmap;
use crate::cache::DrawingCache;
use crate::canvas::Rgb565Canvas;
use crate::color::Color;
use crate::format::{spec_pack16, BitmapFormat};
use crate::geometry::{Offset, Rect};
use crate::viewport::{spec_absolute_clip, Viewport};

verus! {

pub const SCREEN_WIDTH: i16 = 240;

pub const SCREEN_HEIGHT: i16 = 240;

/// Bytes of one full 16-bit frame: width times height times two.
pub const FRAME_BUFFER_BYTES: usize = 115200;

/// Capacity of the general scratch arena of a pass.
pub const BUMP_A_BYTES: usize = 40960;

/// Capacity of the blur scratch arena of a pass.
pub const BUMP_B_BYTES: usize = 16384;

/// The viewport a fresh frame canvas carries: the full screen, cut by the
/// requested clip when one is given.
pub open spec fn spec_frame_viewport(clip: Option<Rect>) -> Viewport {
    let full = Viewport {
        clip: Rect { x0: 0, y0: 0, x1: SCREEN_WIDTH, y1: SCREEN_HEIGHT },
        origin: Offset { x: 0, y: 0 },
    };
    match clip {
        Some(c) => spec_absolute_clip(
            Viewport { clip: c, origin: Offset { x: 0, y: 0 } },
            full.clip,
        ),
        None => full,
    }
}

/// Sets up one rendering pass: a full-screen canvas over the supplied
/// frame-buffer bytes with the optional clip applied and the optional
/// background colour filled in, plus the two scratch arenas of the pass,
/// freshly reset. Fails exactly when the buffer is shorter than one full
/// frame.
pub fn begin_frame(fb: Vec<u8>, clip: Option<Rect>, bg_color: Option<Color>) -> (r: Option<
    (Rgb565Canvas, DrawingCache),
>)
    ensures
        r.is_some() <==> fb@.len() >= FRAME_BUFFER_BYTES,
        r.is_some() ==> {
            let (cv, cache) = r.unwrap();
            &&& cv.wf()
            &&& cv.spec_bitmap().spec_width() == SCREEN_WIDTH
            &&& cv.spec_bitmap().spec_height() == SCREEN_HEIGHT
            &&& cv.spec_viewport() == spec_frame_viewport(clip)
            &&& cache.wf()
            &&& cache.spec_capacity_a() == BUMP_A_BYTES
            &&& cache.spec_capacity_b() == BUMP_B_BYTES
            &&& cache.spec_used_a() == 0 && cache.spec_used_b() == 0
            &&& (bg_color matches Some(col) ==> forall|x: int, y: int|
                0 <= x < SCREEN_WIDTH && 0 <= y < SCREEN_HEIGHT
                    && cv.spec_viewport().clip.spec_contains(x, y)
                    ==> #[trigger] cv.spec_bitmap().spec_px(x, y) == spec_pack16(col))
        },
{
    let ghost fb_len = fb@.len() as int;
    let size = Offset::new(SCREEN_WIDTH, SCREEN_HEIGHT);
    let mut canvas: Rgb565Canvas = match Rgb565Canvas::new(size, None, fb) {
        Some(c) => c,
        None => {
            proof {
                lemma_frame_height(fb_len);
            }
            return None;
        },
    };
    proof {
        lemma_frame_height(fb_len);
    }
    if let Some(c) = clip {
        canvas.set_viewport(Viewport::new(c));
    }
    if let Some(col) = bg_color {
        let full = Rect { x0: 0, y0: 0, x1: SCREEN_WIDTH, y1: SCREEN_HEIGHT };
        canvas.fill_rect(full, col, 255);
        proof {
            let eff = canvas.spec_effective(full);
            assert forall|x: int, y: int|
                0 <= x < SCREEN_WIDTH && 0 <= y < SCREEN_HEIGHT
                    && canvas.spec_viewport().clip.spec_contains(x, y) implies eff.spec_contains(
                x,
                y,
            ) by {}
        }
    }
    let cache = DrawingCache::new(BUMP_A_BYTES, BUMP_B_BYTES);
    Some((canvas, cache))
}

/// The screen-sized bitmap exists exactly when the buffer holds one frame.
proof fn lemma_frame_height(fb_len: int)
    ensures
        (Bitmap::spec_new_height(
            BitmapFormat::RGB565,
            None,
            Offset { x: SCREEN_WIDTH, y: SCREEN_HEIGHT },
            None,
            fb_len,
        ) >= 0) <==> fb_len >= FRAME_BUFFER_BYTES,
{
    if fb_len >= 480 {
        vstd::arithmetic::div_mod::lemma_fundamental_div_mod(fb_len, 480);
    }
}

} // verus!
