//! Hold-to-confirm: a button that confirms when held long enough.
//!
//! The loader animation that fills the button while it is held is drawn
//! by outside widgets; its timing model lives here. The caller reports
//! hold starts and ends and timer ticks, each stamped in milliseconds,
//! and receives the confirmation — or the failure, when the hold was
//! released early and the animation has shrunk back.

use vstd::prelude::*;

use crate::geometry::{fits_i16, Rect};

verus! {

#[derive(Copy, Clone, Debug, PartialEq, Eq, Structural)]
pub enum ButtonPos {
    Left,
    Middle,
    Right,
}

/// A span of time in milliseconds.
#[derive(Copy, Clone, Debug, PartialEq, Eq, Structural)]
pub struct Duration {
    pub ms: u32,
}

#[derive(Copy, Clone, Debug, PartialEq, Eq, Structural)]
pub enum HoldToConfirmMsg {
    Confirmed,
    FailedToConfirm,
}

/// An input to the component: the button was pressed down, released, or a
/// timer tick passed.
#[derive(Copy, Clone, Debug, PartialEq, Eq, Structural)]
pub enum ButtonEvent {
    HoldStarted,
    HoldEnded,
    Tick,
}

/// The loader animation: idle, growing since a hold began, or shrinking
/// since the hold was released.
#[derive(Copy, Clone, Debug, PartialEq, Eq, Structural)]
pub enum LoaderState {
    Initial,
    Growing { start_ms: u32 },
    Shrinking { start_ms: u32 },
}

/// How one event at `now` steps the loader and what it reports: a grow
/// that has run the full duration confirms; a shrink that has run the
/// full duration resets the loader and reports the failed hold.
pub open spec fn spec_hold_step(
    state: LoaderState,
    event: ButtonEvent,
    now: u32,
    duration: u32,
) -> (LoaderState, Option<HoldToConfirmMsg>) {
    let moved = match event {
        ButtonEvent::HoldStarted => LoaderState::Growing { start_ms: now },
        ButtonEvent::HoldEnded => match state {
            LoaderState::Growing { start_ms } => if now < start_ms + duration {
                LoaderState::Shrinking { start_ms: now }
            } else {
                state
            },
            _ => state,
        },
        ButtonEvent::Tick => state,
    };
    match moved {
        LoaderState::Growing { start_ms } => if now >= start_ms + duration {
            (moved, Some(HoldToConfirmMsg::Confirmed))
        } else {
            (moved, None)
        },
        LoaderState::Shrinking { start_ms } => if now >= start_ms + duration {
            (LoaderState::Initial, Some(HoldToConfirmMsg::FailedToConfirm))
        } else {
            (moved, None)
        },
        LoaderState::Initial => (moved, None),
    }
}

/// The rectangle the button occupies inside `area`: a band of
/// `text_width + 7` pixels at the chosen position.
pub open spec fn spec_placement(area: Rect, pos: ButtonPos, text_width: i16) -> Rect {
    let bw = text_width + 7;
    match pos {
        ButtonPos::Left => Rect { x1: (area.x0 + bw) as i16, ..area },
        ButtonPos::Right => Rect { x0: (area.x1 - bw) as i16, ..area },
        ButtonPos::Middle => Rect {
            x0: (area.x0 + (area.x1 - area.x0 - bw) / 2) as i16,
            x1: (area.x0 + (area.x1 - area.x0 - bw) / 2 + bw) as i16,
            ..area
        },
    }
}

/// The arithmetic of `spec_placement` stays within 16-bit coordinates.
pub open spec fn spec_placement_fits(area: Rect, text_width: i16) -> bool {
    let bw = text_width + 7;
    &&& fits_i16(bw)
    &&& fits_i16(area.x0 + bw)
    &&& fits_i16(area.x1 - bw)
    &&& fits_i16(area.x1 - area.x0)
    &&& fits_i16(area.x1 - area.x0 - bw)
    &&& area.x1 - area.x0 - bw >= 0
    &&& fits_i16(area.x0 + (area.x1 - area.x0 - bw) / 2)
    &&& fits_i16(area.x0 + (area.x1 - area.x0 - bw) / 2 + bw)
}

pub struct HoldToConfirm {
    pub area: Rect,
    pub pos: ButtonPos,
    pub text: String,
    pub text_width: i16,
    pub duration: Duration,
    pub loader: LoaderState,
}

impl HoldToConfirm {
    /// A hold-to-confirm button labelled `text`. The label's rendered
    /// width is measured by the font engine outside and passed in.
    pub fn text(pos: ButtonPos, text: String, text_width: i16, duration: Duration) -> (r:
        HoldToConfirm)
        ensures
            r.area == (Rect { x0: 0, y0: 0, x1: 0, y1: 0 }),
            r.pos == pos,
            r.text@ == text@,
            r.text_width == text_width,
            r.duration == duration,
            r.loader == LoaderState::Initial,
    {
        HoldToConfirm {
            area: Rect::zero(),
            pos,
            text,
            text_width,
            duration,
            loader: LoaderState::Initial,
        }
    }

    /// Replaces the label and its measured width, and re-places the
    /// component in the button area.
    pub fn set_text(&mut self, text: String, text_width: i16, button_area: Rect)
        requires
            spec_placement_fits(button_area, text_width),
        ensures
            final(self).text@ == text@,
            final(self).text_width == text_width,
            final(self).area == spec_placement(button_area, old(self).pos, text_width),
            final(self).pos == old(self).pos,
            final(self).duration == old(self).duration,
            final(self).loader == old(self).loader,
    {
        self.text = text;
        self.text_width = text_width;
        self.place(button_area);
    }

    /// Puts the loader back to idle.
    pub fn reset(&mut self)
        ensures
            *final(self) == (HoldToConfirm { loader: LoaderState::Initial, ..*old(self) }),
    {
        self.loader = LoaderState::Initial;
    }

    pub fn set_duration(&mut self, duration: Duration)
        ensures
            *final(self) == (HoldToConfirm { duration, ..*old(self) }),
    {
        self.duration = duration;
    }

    pub fn get_duration(&self) -> (d: Duration)
        ensures
            d == self.duration,
    {
        self.duration
    }

    pub fn get_text(&self) -> (t: &String)
        ensures
            t@ == self.text@,
    {
        &self.text
    }

    /// Computes the button band for the given area and position.
    pub fn placement(&self, area: Rect, pos: ButtonPos) -> (r: Rect)
        requires
            spec_placement_fits(area, self.text_width),
        ensures
            r == spec_placement(area, pos, self.text_width),
    {
        let button_width: i16 = self.text_width + 7;
        match pos {
            ButtonPos::Left => area.split_left(button_width).0,
            ButtonPos::Right => area.split_right(button_width).1,
            ButtonPos::Middle => area.split_center(button_width).1,
        }
    }

    /// Places the component: the loader takes the button band of
    /// `bounds`.
    pub fn place(&mut self, bounds: Rect) -> (r: Rect)
        requires
            spec_placement_fits(bounds, old(self).text_width),
        ensures
            r == spec_placement(bounds, old(self).pos, old(self).text_width),
            *final(self) == (HoldToConfirm { area: r, ..*old(self) }),
    {
        let area = self.placement(bounds, self.pos);
        self.area = area;
        area
    }

    /// Feeds one event at time `now_ms` into the component.
    pub fn event(&mut self, event: ButtonEvent, now_ms: u32) -> (r: Option<HoldToConfirmMsg>)
        ensures
            ({
                let (state, out) = spec_hold_step(
                    old(self).loader,
                    event,
                    now_ms,
                    old(self).duration.ms,
                );
                &&& *final(self) == (HoldToConfirm { loader: state, ..*old(self) })
                &&& r == out
            }),
    {
        match event {
            ButtonEvent::HoldStarted => {
                self.loader = LoaderState::Growing { start_ms: now_ms };
            },
            ButtonEvent::HoldEnded => {
                if let LoaderState::Growing { start_ms } = self.loader {
                    if (now_ms as u64) < start_ms as u64 + self.duration.ms as u64 {
                        self.loader = LoaderState::Shrinking { start_ms: now_ms };
                    }
                }
            },
            ButtonEvent::Tick => {},
        }
        match self.loader {
            LoaderState::Growing { start_ms } => {
                if now_ms as u64 >= start_ms as u64 + self.duration.ms as u64 {
                    Some(HoldToConfirmMsg::Confirmed)
                } else {
                    None
                }
            },
            LoaderState::Shrinking { start_ms } => {
                if now_ms as u64 >= start_ms as u64 + self.duration.ms as u64 {
                    self.loader = LoaderState::Initial;
                    Some(HoldToConfirmMsg::FailedToConfirm)
                } else {
                    None
                }
            },
            LoaderState::Initial => None,
        }
    }

    /// True while the loader animation is running.
    pub fn is_animating(&self) -> (r: bool)
        ensures
            r == !(self.loader == LoaderState::Initial),
    {
        !matches!(self.loader, LoaderState::Initial)
    }
}

} // verus!
