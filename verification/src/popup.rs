//! The result popup: an icon animation, a message, an optional headline
//! and an optional button.
//!
//! The child widgets draw themselves outside; this module carries the
//! layout arithmetic of `place` and the decision logic of `event`: when
//! the grow animation completes the popup confirms by itself unless a
//! button is present and autoclose is off, in which case the button
//! confirms.

use vstd::prelude::*;

use crate::color::{spec_from_rgb, Color};
use crate::geometry::{fits_i16, Point, Rect};

verus! {

#[derive(Copy, Clone, Debug, PartialEq, Eq, Structural)]
pub enum ResultPopupMsg {
    Confirmed,
}

#[derive(Copy, Clone, Debug, PartialEq, Eq, Structural)]
pub enum State {
    Initial,
    Animating,
    AnimationDone,
}

/// The text theme of the popup's message: white on black.
pub struct MessageText;

impl MessageText {
    pub fn background_color() -> (c: Color)
        ensures
            c == spec_from_rgb(0, 0, 0),
    {
        Color::from_rgb(0, 0, 0)
    }

    pub fn text_color() -> (c: Color)
        ensures
            c == spec_from_rgb(255, 255, 255),
    {
        Color::from_rgb(255, 255, 255)
    }
}

/// Where the message text starts below the popup's top edge, depending on
/// which optional parts are present.
pub open spec fn spec_text_start(b: Rect, has_button: bool, has_headline: bool) -> int {
    if has_headline {
        b.y0 + 74
    } else if has_button {
        b.y0 + 58
    } else {
        b.y0 + 64
    }
}

/// The vertical centre of the icon animation.
pub open spec fn spec_anim_y(b: Rect, has_button: bool, has_headline: bool) -> int {
    if has_headline {
        b.y0 + 26
    } else if has_button {
        b.y0 + 30
    } else {
        b.y0 + 36
    }
}

/// The layout arithmetic of `place` stays within 16-bit coordinates.
pub open spec fn spec_place_fits(b: Rect, headline_height: i16) -> bool {
    &&& fits_i16(b.y1 - 13)
    &&& fits_i16(b.y0 + 74)
    &&& fits_i16(b.y0 + 54 + headline_height)
    &&& b.x0 + b.x1 >= 0
    &&& fits_i16((b.x0 + b.x1) / 2 - 9)
    &&& fits_i16((b.x0 + b.x1) / 2 + 9)
    &&& fits_i16(spec_anim_y(b, true, true) - 9)
    &&& fits_i16(spec_anim_y(b, false, false) + 9)
}

pub struct ResultPopup {
    pub area: Rect,
    pub state: State,
    pub icon: Vec<u8>,
    pub text: String,
    pub headline: Option<String>,
    pub headline_height: i16,
    pub button_text: Option<String>,
    pub autoclose: bool,
    pub headline_area: Option<Rect>,
    pub button_area: Option<Rect>,
    pub text_area: Rect,
    pub anim_area: Rect,
}

impl ResultPopup {
    /// A fresh popup showing `icon` and `text`, with an optional headline
    /// (whose rendered height the font engine measures outside) and an
    /// optional button.
    pub fn new(
        icon: Vec<u8>,
        text: String,
        headline: Option<String>,
        button_text: Option<String>,
        headline_height: i16,
    ) -> (r: ResultPopup)
        ensures
            r.area == (Rect { x0: 0, y0: 0, x1: 0, y1: 0 }),
            r.state == State::Initial,
            r.icon@ == icon@,
            r.text@ == text@,
            r.headline == headline,
            r.headline_height == headline_height,
            r.button_text == button_text,
            r.autoclose == false,
            r.headline_area is None,
            r.button_area is None,
    {
        ResultPopup {
            area: Rect::zero(),
            state: State::Initial,
            icon,
            text,
            headline,
            headline_height,
            button_text,
            autoclose: false,
            headline_area: None,
            button_area: None,
            text_area: Rect::zero(),
            anim_area: Rect::zero(),
        }
    }

    /// Closes by itself after the animation even when a button is shown.
    pub fn autoclose(&mut self)
        ensures
            *final(self) == (ResultPopup { autoclose: true, ..*old(self) }),
    {
        self.autoclose = true;
    }

    /// Starts the icon animation.
    pub fn start(&mut self)
        ensures
            *final(self) == (ResultPopup { state: State::Animating, ..*old(self) }),
    {
        self.state = State::Animating;
    }

    /// Lays the popup out in `bounds`: the button band at the bottom when
    /// a button is present, the headline band when a headline is present,
    /// the message text between them, and the icon animation centred
    /// above the text.
    pub fn place(&mut self, bounds: Rect) -> (r: Rect)
        requires
            spec_place_fits(bounds, old(self).headline_height),
        ensures
            r == bounds,
            final(self).area == bounds,
            final(self).state == old(self).state,
            final(self).icon == old(self).icon,
            final(self).text == old(self).text,
            final(self).headline == old(self).headline,
            final(self).headline_height == old(self).headline_height,
            final(self).button_text == old(self).button_text,
            final(self).autoclose == old(self).autoclose,
            final(self).button_area == (if old(self).button_text is Some {
                Some(Rect { x0: bounds.x0, y0: (bounds.y1 - 13) as i16, x1: bounds.x1, y1: bounds.y1 })
            } else {
                None::<Rect>
            }),
            final(self).headline_area == (if old(self).headline is Some {
                Some(
                    Rect {
                        x0: bounds.x0,
                        y0: (bounds.y0 + 54) as i16,
                        x1: bounds.x1,
                        y1: (bounds.y0 + 54 + old(self).headline_height) as i16,
                    },
                )
            } else {
                None::<Rect>
            }),
            final(self).text_area == (Rect {
                x0: bounds.x0,
                y0: spec_text_start(
                    bounds,
                    old(self).button_text is Some,
                    old(self).headline is Some,
                ) as i16,
                x1: bounds.x1,
                y1: (if old(self).button_text is Some {
                    bounds.y1 - 13
                } else {
                    bounds.y1 as int
                }) as i16,
            }),
            final(self).anim_area == (Rect {
                x0: ((bounds.x0 + bounds.x1) / 2 - 9) as i16,
                y0: (spec_anim_y(
                    bounds,
                    old(self).button_text is Some,
                    old(self).headline is Some,
                ) - 9) as i16,
                x1: ((bounds.x0 + bounds.x1) / 2 - 9 + 18) as i16,
                y1: (spec_anim_y(
                    bounds,
                    old(self).button_text is Some,
                    old(self).headline is Some,
                ) - 9 + 18) as i16,
            }),
    {
        self.area = bounds;

        let button_area_start: i16 = bounds.y1 - 13;
        let mut text_start: i16 = bounds.y0 + 64;
        let mut text_end: i16 = bounds.y1;
        let mut anim_pos_y: i16 = bounds.y0 + 36;

        if self.button_text.is_some() {
            self.button_area = Some(
                Rect::new(
                    Point::new(bounds.x0, button_area_start),
                    Point::new(bounds.x1, bounds.y1),
                ),
            );
            text_start = bounds.y0 + 58;
            text_end = button_area_start;
            anim_pos_y = bounds.y0 + 30;
        } else {
            self.button_area = None;
        }

        if self.headline.is_some() {
            let p = Point::new(bounds.x0, bounds.y0 + 54);
            self.headline_area = Some(
                Rect::new(p, Point::new(bounds.x1, bounds.y0 + 54 + self.headline_height)),
            );
            text_start = bounds.y0 + 74;
            anim_pos_y = bounds.y0 + 26;
        } else {
            self.headline_area = None;
        }

        self.text_area = Rect::new(
            Point::new(bounds.x0, text_start),
            Point::new(bounds.x1, text_end),
        );

        let cx: i16 = ((bounds.x0 as i32 + bounds.x1 as i32) / 2) as i16;
        self.anim_area = Rect::from_center_and_size(
            Point::new(cx, anim_pos_y),
            crate::geometry::Offset::new(18, 18),
        );

        self.area
    }

    /// Feeds the child outcomes of one event round into the popup: whether
    /// the button was clicked and whether the icon animation reported
    /// being fully grown. Confirms on the click, or on the finished
    /// animation when no button is shown or autoclose is on.
    pub fn event(&mut self, button_clicked: bool, anim_fully_grown: bool) -> (r: Option<
        ResultPopupMsg,
    >)
        ensures
            final(self).state == (if anim_fully_grown {
                State::AnimationDone
            } else {
                old(self).state
            }),
            *final(self) == (ResultPopup { state: final(self).state, ..*old(self) }),
            r == (if (anim_fully_grown && (old(self).button_text is None || old(self).autoclose))
                || button_clicked {
                Some(ResultPopupMsg::Confirmed)
            } else {
                None::<ResultPopupMsg>
            }),
    {
        let button_confirmed: bool = button_clicked;

        if anim_fully_grown {
            self.state = State::AnimationDone;
            if self.button_text.is_none() || self.autoclose {
                return Some(ResultPopupMsg::Confirmed);
            }
        }

        if button_confirmed {
            return Some(ResultPopupMsg::Confirmed);
        }

        None
    }
}

} // verus!
