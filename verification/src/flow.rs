//! The get-address flow: the state machine behind the screen sequence.
//!
//! The widgets of each screen (frames, menus, the QR code) and their
//! rendering are outside collaborators. What this module holds is the
//! decision core: which screen is showing, which swipe or child message
//! moves to which screen, and how the sliding transition between screens
//! advances with time. The caller feeds in events and timestamps in
//! milliseconds and performs the rendering the decisions call for.

use vstd::prelude::*;

use crate::frame::{SCREEN_HEIGHT, SCREEN_WIDTH};
use crate::geometry::Offset;

verus! {

/// Milliseconds a screen transition animation runs.
pub const ANIMATION_DURATION_MS: u32 = 600;

#[derive(Copy, Clone, Debug, PartialEq, Eq, Structural)]
pub enum SwipeDirection {
    Up,
    Down,
    Left,
    Right,
}

/// The screens of the flow.
#[derive(Copy, Clone, Debug, PartialEq, Eq, Structural)]
pub enum State {
    Address,
    Menu,
    QrCode,
    AccountInfo,
    Cancel,
    Success,
}

#[derive(Copy, Clone, Debug, PartialEq, Eq, Structural)]
pub enum CancelConfirmMsg {
    Cancelled,
    Confirmed,
}

/// What an event decides: nothing, a move to another screen, or a result
/// handed back to the caller.
#[derive(Copy, Clone, Debug, PartialEq, Eq, Structural)]
pub enum Decision {
    Nothing,
    Goto(State, SwipeDirection),
    Return(CancelConfirmMsg),
}

/// A message surfacing from the current screen's widgets.
#[derive(Copy, Clone, Debug, PartialEq, Eq, Structural)]
pub enum ChildMsg {
    /// The screen's header button was pressed.
    Button,
    /// A menu entry was selected.
    Choice(u32),
    /// The success dialog ran out.
    Dismissed,
}

/// An input to the flow: a recognised swipe, a child message, or an
/// animation frame tick.
#[derive(Copy, Clone, Debug, PartialEq, Eq, Structural)]
pub enum FlowEvent {
    Swipe(SwipeDirection),
    Child(ChildMsg),
    AnimFrame,
}

/// A running transition towards `state`, sliding in `direction`, started
/// at `start_ms`.
#[derive(Copy, Clone, Debug, PartialEq, Eq, Structural)]
pub struct Transition {
    pub state: State,
    pub direction: SwipeDirection,
    pub start_ms: u32,
}

#[derive(Copy, Clone, Debug, PartialEq, Eq, Structural)]
pub enum Axis {
    Horizontal,
    Vertical,
}

/// Paging state of a swipeable scrolling content: which of `pages` pages
/// is showing, and along which axis swipes page.
#[derive(Copy, Clone, Debug, PartialEq, Eq, Structural)]
pub struct SwipeScroller {
    pub axis: Axis,
    pub pages: usize,
    pub current: usize,
}

/// Whether a swipe in `dir` pages the scroller rather than leaving it.
pub open spec fn spec_can_swipe(sc: SwipeScroller, dir: SwipeDirection) -> bool {
    match (sc.axis, dir) {
        (Axis::Horizontal, SwipeDirection::Up) => false,
        (Axis::Horizontal, SwipeDirection::Down) => false,
        (Axis::Vertical, SwipeDirection::Left) => false,
        (Axis::Vertical, SwipeDirection::Right) => false,
        (_, SwipeDirection::Left) => sc.current + 1 < sc.pages,
        (_, SwipeDirection::Up) => sc.current + 1 < sc.pages,
        (_, SwipeDirection::Right) => sc.current > 0,
        (_, SwipeDirection::Down) => sc.current > 0,
    }
}

/// The scroller after a swipe in `dir`: forward swipes advance up to the
/// last page, backward swipes retreat down to the first.
pub open spec fn spec_swiped(sc: SwipeScroller, dir: SwipeDirection) -> SwipeScroller {
    match (sc.axis, dir) {
        (Axis::Horizontal, SwipeDirection::Up) => sc,
        (Axis::Horizontal, SwipeDirection::Down) => sc,
        (Axis::Vertical, SwipeDirection::Left) => sc,
        (Axis::Vertical, SwipeDirection::Right) => sc,
        (_, SwipeDirection::Left) | (_, SwipeDirection::Up) => SwipeScroller {
            current: if sc.current + 1 <= sc.pages - 1 {
                (sc.current + 1) as usize
            } else {
                (sc.pages - 1) as usize
            },
            ..sc
        },
        (_, SwipeDirection::Right) | (_, SwipeDirection::Down) => SwipeScroller {
            current: if sc.current > 0 {
                (sc.current - 1) as usize
            } else {
                0
            },
            ..sc
        },
    }
}

impl SwipeScroller {
    /// At least one page, and the current page exists.
    pub open spec fn wf(self) -> bool {
        1 <= self.pages && self.current < self.pages
    }

    /// A vertically paging scroller showing the first of its pages.
    pub fn vertical(pages: usize) -> (sc: SwipeScroller)
        requires
            pages >= 1,
        ensures
            sc.wf(),
            sc.axis == Axis::Vertical,
            sc.pages == pages,
            sc.current == 0,
    {
        SwipeScroller { axis: Axis::Vertical, pages, current: 0 }
    }

    pub fn can_swipe(&self, dir: SwipeDirection) -> (r: bool)
        requires
            self.wf(),
        ensures
            r == spec_can_swipe(*self, dir),
    {
        match (self.axis, dir) {
            (Axis::Horizontal, SwipeDirection::Up) => false,
            (Axis::Horizontal, SwipeDirection::Down) => false,
            (Axis::Vertical, SwipeDirection::Left) => false,
            (Axis::Vertical, SwipeDirection::Right) => false,
            (_, SwipeDirection::Left) | (_, SwipeDirection::Up) => self.current + 1 < self.pages,
            (_, SwipeDirection::Right) | (_, SwipeDirection::Down) => self.current > 0,
        }
    }

    pub fn swiped(&mut self, dir: SwipeDirection)
        requires
            old(self).wf(),
        ensures
            final(self).wf(),
            *final(self) == spec_swiped(*old(self), dir),
    {
        match (self.axis, dir) {
            (Axis::Horizontal, SwipeDirection::Up) => {},
            (Axis::Horizontal, SwipeDirection::Down) => {},
            (Axis::Vertical, SwipeDirection::Left) => {},
            (Axis::Vertical, SwipeDirection::Right) => {},
            (_, SwipeDirection::Left) | (_, SwipeDirection::Up) => {
                let next: usize = self.current + 1;
                self.current = if next <= self.pages - 1 {
                    next
                } else {
                    self.pages - 1
                };
            },
            (_, SwipeDirection::Right) | (_, SwipeDirection::Down) => {
                if self.current > 0 {
                    self.current = self.current - 1;
                }
            },
        }
    }
}

/// Where a swipe leads from each screen.
pub open spec fn spec_handle_swipe(st: State, dir: SwipeDirection) -> Decision {
    match (st, dir) {
        (State::Address, SwipeDirection::Left) => Decision::Goto(State::Menu, dir),
        (State::Address, SwipeDirection::Up) => Decision::Goto(State::Success, dir),
        (State::Menu, SwipeDirection::Right) => Decision::Goto(State::Address, dir),
        (State::QrCode, SwipeDirection::Right) => Decision::Goto(State::Menu, dir),
        (State::AccountInfo, SwipeDirection::Right) => Decision::Goto(State::Menu, dir),
        (State::Cancel, SwipeDirection::Up) => Decision::Return(CancelConfirmMsg::Cancelled),
        _ => Decision::Nothing,
    }
}

/// Where a child message leads from each screen.
pub open spec fn spec_handle_child(st: State, msg: ChildMsg) -> Decision {
    match (st, msg) {
        (State::Address, ChildMsg::Button) => Decision::Goto(State::Menu, SwipeDirection::Left),
        (State::Menu, ChildMsg::Choice(0u32)) => Decision::Goto(
            State::QrCode,
            SwipeDirection::Left,
        ),
        (State::Menu, ChildMsg::Choice(1u32)) => Decision::Goto(
            State::AccountInfo,
            SwipeDirection::Left,
        ),
        (State::Menu, ChildMsg::Choice(2u32)) => Decision::Goto(
            State::Cancel,
            SwipeDirection::Left,
        ),
        (State::Menu, ChildMsg::Button) => Decision::Goto(State::Address, SwipeDirection::Right),
        (State::QrCode, ChildMsg::Button) => Decision::Goto(State::Menu, SwipeDirection::Right),
        (State::AccountInfo, ChildMsg::Button) => Decision::Goto(
            State::Menu,
            SwipeDirection::Right,
        ),
        (State::Cancel, ChildMsg::Button) => Decision::Goto(State::Menu, SwipeDirection::Right),
        (State::Success, ChildMsg::Dismissed) => Decision::Return(CancelConfirmMsg::Confirmed),
        _ => Decision::Nothing,
    }
}

/// The flow: the showing screen, the running transition if any, and the
/// paging state of the address screen's scroller.
pub struct GetAddressFlow {
    state: State,
    transition: Option<Transition>,
    scroller: SwipeScroller,
}

impl GetAddressFlow {
    pub closed spec fn spec_state(self) -> State {
        self.state
    }

    pub closed spec fn spec_transition(self) -> Option<Transition> {
        self.transition
    }

    pub closed spec fn spec_scroller(self) -> SwipeScroller {
        self.scroller
    }

    pub open spec fn wf(self) -> bool {
        self.spec_scroller().wf()
    }

    /// A fresh flow: the address screen, no transition running, the
    /// scroller on its first page.
    pub fn new() -> (f: GetAddressFlow)
        ensures
            f.wf(),
            f.spec_state() == State::Address,
            f.spec_transition() is None,
            f.spec_scroller().current == 0,
            f.spec_scroller().axis == Axis::Vertical,
    {
        GetAddressFlow {
            state: State::Address,
            transition: None,
            scroller: SwipeScroller::vertical(1),
        }
    }

    /// The screen currently showing.
    pub fn state(&self) -> (st: State)
        ensures
            st == self.spec_state(),
    {
        self.state
    }

    /// The transition in flight, if any.
    pub fn transition(&self) -> (t: Option<Transition>)
        ensures
            t == self.spec_transition(),
    {
        self.transition
    }

    /// Tells the address screen's scroller how many pages its content has.
    pub fn set_page_count(&mut self, pages: usize)
        requires
            old(self).wf(),
            pages >= 1,
        ensures
            final(self).wf(),
            final(self).spec_state() == old(self).spec_state(),
            final(self).spec_transition() == old(self).spec_transition(),
            final(self).spec_scroller().pages == pages,
            final(self).spec_scroller().axis == old(self).spec_scroller().axis,
            final(self).spec_scroller().current == (if old(self).spec_scroller().current < pages {
                old(self).spec_scroller().current as int
            } else {
                pages - 1
            }),
    {
        self.scroller.pages = pages;
        if self.scroller.current >= pages {
            self.scroller.current = pages - 1;
        }
    }

    /// The slide offset of a transition in `direction`: one full screen.
    pub fn transition_offset(direction: SwipeDirection) -> (o: Offset)
        ensures
            o == spec_transition_offset(direction),
    {
        match direction {
            SwipeDirection::Up => Offset::y(-SCREEN_HEIGHT),
            SwipeDirection::Down => Offset::y(SCREEN_HEIGHT),
            SwipeDirection::Left => Offset::x(-SCREEN_WIDTH),
            SwipeDirection::Right => Offset::x(SCREEN_WIDTH),
        }
    }

    /// Starts a transition towards `state`, sliding in `direction`.
    pub fn goto(&mut self, direction: SwipeDirection, state: State, now_ms: u32)
        requires
            old(self).wf(),
        ensures
            final(self).wf(),
            final(self).spec_state() == old(self).spec_state(),
            final(self).spec_scroller() == old(self).spec_scroller(),
            final(self).spec_transition() == Some(
                Transition { state, direction, start_ms: now_ms },
            ),
    {
        self.transition = Some(Transition { state, direction, start_ms: now_ms });
    }

    /// Advances the running transition: once the animation duration has
    /// passed, the target screen becomes current and the transition ends.
    pub fn handle_transition(&mut self, now_ms: u32)
        requires
            old(self).wf(),
        ensures
            final(self).wf(),
            spec_anim_outcome(*old(self), now_ms, *final(self)),
            final(self).spec_scroller() == old(self).spec_scroller(),
    {
        if let Some(t) = self.transition {
            if now_ms as u64 >= t.start_ms as u64 + ANIMATION_DURATION_MS as u64 {
                self.state = t.state;
                self.transition = None;
            }
        }
    }

    /// The decision a swipe makes: page the address scroller when it can
    /// take the swipe, otherwise move between screens by the swipe table.
    pub fn handle_swipe(&self, direction: SwipeDirection) -> (d: Decision)
        ensures
            d == spec_handle_swipe(self.spec_state(), direction),
    {
        match (self.state, direction) {
            (State::Address, SwipeDirection::Left) => Decision::Goto(State::Menu, direction),
            (State::Address, SwipeDirection::Up) => Decision::Goto(State::Success, direction),
            (State::Menu, SwipeDirection::Right) => Decision::Goto(State::Address, direction),
            (State::QrCode, SwipeDirection::Right) => Decision::Goto(State::Menu, direction),
            (State::AccountInfo, SwipeDirection::Right) => Decision::Goto(State::Menu, direction),
            (State::Cancel, SwipeDirection::Up) => Decision::Return(CancelConfirmMsg::Cancelled),
            _ => Decision::Nothing,
        }
    }

    /// Pages the address screen's scroller when the swipe is for it;
    /// reports whether it was taken.
    pub fn handle_swipe_child(&mut self, direction: SwipeDirection) -> (taken: bool)
        requires
            old(self).wf(),
        ensures
            final(self).wf(),
            final(self).spec_state() == old(self).spec_state(),
            final(self).spec_transition() == old(self).spec_transition(),
            taken == (old(self).spec_state() == State::Address && spec_can_swipe(
                old(self).spec_scroller(),
                direction,
            )),
            taken ==> final(self).spec_scroller() == spec_swiped(
                old(self).spec_scroller(),
                direction,
            ),
            !taken ==> final(self).spec_scroller() == old(self).spec_scroller(),
    {
        match self.state {
            State::Address => {
                if self.scroller.can_swipe(direction) {
                    self.scroller.swiped(direction);
                    true
                } else {
                    false
                }
            },
            _ => false,
        }
    }

    /// The decision a child message makes, by the child table. A menu
    /// choice beyond the three entries does not occur.
    pub fn handle_child(&self, msg: ChildMsg) -> (d: Decision)
        requires
            !(self.spec_state() == State::Menu && (msg matches ChildMsg::Choice(n) && n > 2)),
        ensures
            d == spec_handle_child(self.spec_state(), msg),
    {
        match (self.state, msg) {
            (State::Address, ChildMsg::Button) => Decision::Goto(
                State::Menu,
                SwipeDirection::Left,
            ),
            (State::Menu, ChildMsg::Choice(n)) => {
                if n == 0 {
                    Decision::Goto(State::QrCode, SwipeDirection::Left)
                } else if n == 1 {
                    Decision::Goto(State::AccountInfo, SwipeDirection::Left)
                } else {
                    Decision::Goto(State::Cancel, SwipeDirection::Left)
                }
            },
            (State::Menu, ChildMsg::Button) => Decision::Goto(
                State::Address,
                SwipeDirection::Right,
            ),
            (State::QrCode, ChildMsg::Button) => Decision::Goto(
                State::Menu,
                SwipeDirection::Right,
            ),
            (State::AccountInfo, ChildMsg::Button) => Decision::Goto(
                State::Menu,
                SwipeDirection::Right,
            ),
            (State::Cancel, ChildMsg::Button) => Decision::Goto(
                State::Menu,
                SwipeDirection::Right,
            ),
            (State::Success, ChildMsg::Dismissed) => Decision::Return(
                CancelConfirmMsg::Confirmed,
            ),
            _ => Decision::Nothing,
        }
    }

    /// Feeds one event into the flow at time `now_ms`; returns the flow's
    /// result when the event ends it.
    pub fn event(&mut self, event: FlowEvent, now_ms: u32) -> (r: Option<CancelConfirmMsg>)
        requires
            old(self).wf(),
            !(old(self).spec_state() == State::Menu && (event matches FlowEvent::Child(
                ChildMsg::Choice(n),
            ) && n > 2)),
        ensures
            final(self).wf(),
            ({
                let f = *old(self);
                match event {
                    FlowEvent::AnimFrame => r is None && spec_anim_outcome(
                        f,
                        now_ms,
                        *final(self),
                    ),
                    FlowEvent::Swipe(dir) => {
                        let taken = f.spec_state() == State::Address && spec_can_swipe(
                            f.spec_scroller(),
                            dir,
                        );
                        let d = if taken {
                            Decision::Goto(f.spec_state(), dir)
                        } else {
                            spec_handle_swipe(f.spec_state(), dir)
                        };
                        let sc = if taken {
                            spec_swiped(f.spec_scroller(), dir)
                        } else {
                            f.spec_scroller()
                        };
                        &&& final(self).spec_state() == f.spec_state()
                        &&& final(self).spec_scroller() == sc
                        &&& spec_decision_outcome(f, d, now_ms, *final(self), r)
                    },
                    FlowEvent::Child(msg) => {
                        let d = spec_handle_child(f.spec_state(), msg);
                        &&& final(self).spec_state() == f.spec_state()
                        &&& final(self).spec_scroller() == f.spec_scroller()
                        &&& spec_decision_outcome(f, d, now_ms, *final(self), r)
                    },
                }
            }),
    {
        match event {
            FlowEvent::AnimFrame => {
                self.handle_transition(now_ms);
                None
            },
            FlowEvent::Swipe(dir) => {
                let decision: Decision = if self.handle_swipe_child(dir) {
                    Decision::Goto(self.state, dir)
                } else {
                    self.handle_swipe(dir)
                };
                self.apply_decision(decision, now_ms)
            },
            FlowEvent::Child(msg) => {
                let decision: Decision = self.handle_child(msg);
                self.apply_decision(decision, now_ms)
            },
        }
    }

    /// Carries out a decision: start the transition of a `Goto`, hand back
    /// the message of a `Return`, do nothing otherwise.
    fn apply_decision(&mut self, decision: Decision, now_ms: u32) -> (r: Option<CancelConfirmMsg>)
        requires
            old(self).wf(),
        ensures
            final(self).wf(),
            final(self).spec_state() == old(self).spec_state(),
            final(self).spec_scroller() == old(self).spec_scroller(),
            spec_decision_outcome(*old(self), decision, now_ms, *final(self), r),
    {
        match decision {
            Decision::Nothing => None,
            Decision::Goto(next_state, direction) => {
                self.goto(direction, next_state, now_ms);
                None
            },
            Decision::Return(msg) => Some(msg),
        }
    }
}

/// The slide offset of a transition in `direction`.
pub open spec fn spec_transition_offset(direction: SwipeDirection) -> Offset {
    match direction {
        SwipeDirection::Up => Offset { x: 0, y: (-SCREEN_HEIGHT) as i16 },
        SwipeDirection::Down => Offset { x: 0, y: SCREEN_HEIGHT },
        SwipeDirection::Left => Offset { x: (-SCREEN_WIDTH) as i16, y: 0 },
        SwipeDirection::Right => Offset { x: SCREEN_WIDTH, y: 0 },
    }
}

/// How an animation frame at `now` relates the flow before and after: a
/// transition that has run its duration lands on its target screen and
/// ends; anything else stays put.
pub open spec fn spec_anim_outcome(before: GetAddressFlow, now: u32, after: GetAddressFlow) -> bool {
    match before.spec_transition() {
        Some(t) => if now >= t.start_ms + ANIMATION_DURATION_MS {
            after.spec_state() == t.state && after.spec_transition() is None
                && after.spec_scroller() == before.spec_scroller()
        } else {
            after == before
        },
        None => after == before,
    }
}

/// How a decision relates the flow before and after, and the call's
/// result: `Nothing` changes nothing, `Goto` starts the transition,
/// `Return` hands the message out.
pub open spec fn spec_decision_outcome(
    before: GetAddressFlow,
    d: Decision,
    now: u32,
    after: GetAddressFlow,
    r: Option<CancelConfirmMsg>,
) -> bool {
    match d {
        Decision::Nothing => after.spec_transition() == before.spec_transition() && r is None,
        Decision::Goto(s, dir) => after.spec_transition() == Some(
            Transition { state: s, direction: dir, start_ms: now },
        ) && r is None,
        Decision::Return(m) => after.spec_transition() == before.spec_transition() && r == Some(m),
    }
}

} // verus!
