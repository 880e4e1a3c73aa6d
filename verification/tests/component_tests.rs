use framecore::flow::{
    CancelConfirmMsg, ChildMsg, Decision, FlowEvent, GetAddressFlow, State, SwipeDirection,
    SwipeScroller,
};
use framecore::frame::{begin_frame, FRAME_BUFFER_BYTES};
use framecore::geometry::{Offset, Point, Rect};
use framecore::hold::{
    ButtonEvent, ButtonPos, Duration, HoldToConfirm, HoldToConfirmMsg, LoaderState,
};
use framecore::popup::{MessageText, ResultPopup, ResultPopupMsg};
use framecore::color::Color;

fn rect(x0: i16, y0: i16, x1: i16, y1: i16) -> Rect {
    Rect::new(Point::new(x0, y0), Point::new(x1, y1))
}

#[test]
fn flow_swipe_table() {
    let f = GetAddressFlow::new();
    assert_eq!(
        f.handle_swipe(SwipeDirection::Left),
        Decision::Goto(State::Menu, SwipeDirection::Left)
    );
    assert_eq!(
        f.handle_swipe(SwipeDirection::Up),
        Decision::Goto(State::Success, SwipeDirection::Up)
    );
    assert_eq!(f.handle_swipe(SwipeDirection::Right), Decision::Nothing);
    assert_eq!(f.handle_swipe(SwipeDirection::Down), Decision::Nothing);
}

#[test]
fn flow_swipe_starts_transition_and_anim_frame_lands_it() {
    let mut f = GetAddressFlow::new();
    assert_eq!(f.state(), State::Address);
    assert!(f.event(FlowEvent::Swipe(SwipeDirection::Left), 1000).is_none());
    assert_eq!(f.state(), State::Address);
    let t = f.transition().unwrap();
    assert_eq!(t.state, State::Menu);
    assert_eq!(t.direction, SwipeDirection::Left);
    assert_eq!(t.start_ms, 1000);
    // Before the animation duration has passed nothing moves.
    assert!(f.event(FlowEvent::AnimFrame, 1300).is_none());
    assert_eq!(f.state(), State::Address);
    // Once 600 milliseconds have passed the target screen is current.
    assert!(f.event(FlowEvent::AnimFrame, 1600).is_none());
    assert_eq!(f.state(), State::Menu);
    assert!(f.transition().is_none());
}

#[test]
fn flow_menu_choices_lead_to_their_screens() {
    for (choice, target) in [
        (0u32, State::QrCode),
        (1, State::AccountInfo),
        (2, State::Cancel),
    ] {
        let mut f = GetAddressFlow::new();
        f.event(FlowEvent::Swipe(SwipeDirection::Left), 0);
        f.event(FlowEvent::AnimFrame, 600);
        assert_eq!(f.state(), State::Menu);
        assert!(f.event(FlowEvent::Child(ChildMsg::Choice(choice)), 700).is_none());
        f.event(FlowEvent::AnimFrame, 1300);
        assert_eq!(f.state(), target);
    }
}

#[test]
fn flow_cancel_screen_returns_cancelled_on_swipe_up() {
    let mut f = GetAddressFlow::new();
    f.event(FlowEvent::Swipe(SwipeDirection::Left), 0);
    f.event(FlowEvent::AnimFrame, 600);
    f.event(FlowEvent::Child(ChildMsg::Choice(2)), 700);
    f.event(FlowEvent::AnimFrame, 1300);
    assert_eq!(f.state(), State::Cancel);
    assert_eq!(
        f.event(FlowEvent::Swipe(SwipeDirection::Up), 1400),
        Some(CancelConfirmMsg::Cancelled)
    );
}

#[test]
fn flow_success_dismissal_returns_confirmed() {
    let mut f = GetAddressFlow::new();
    f.event(FlowEvent::Swipe(SwipeDirection::Up), 0);
    f.event(FlowEvent::AnimFrame, 600);
    assert_eq!(f.state(), State::Success);
    assert_eq!(
        f.event(FlowEvent::Child(ChildMsg::Dismissed), 700),
        Some(CancelConfirmMsg::Confirmed)
    );
}

#[test]
fn flow_paged_scroller_takes_the_swipe_first() {
    let mut f = GetAddressFlow::new();
    f.set_page_count(3);
    // With pages left, an upward swipe pages instead of leaving.
    assert!(f.event(FlowEvent::Swipe(SwipeDirection::Up), 0).is_none());
    let t = f.transition().unwrap();
    assert_eq!(t.state, State::Address);
}

#[test]
fn vertical() {
    let sc = SwipeScroller::vertical(3);
    assert!(!sc.can_swipe(SwipeDirection::Left));
    assert!(!sc.can_swipe(SwipeDirection::Right));
    assert!(sc.can_swipe(SwipeDirection::Up));
    assert!(!sc.can_swipe(SwipeDirection::Down));
    let mut sc2 = sc;
    sc2.swiped(SwipeDirection::Up);
    assert_eq!(sc2.current, 1);
    assert!(sc2.can_swipe(SwipeDirection::Down));
    sc2.swiped(SwipeDirection::Up);
    sc2.swiped(SwipeDirection::Up);
    assert_eq!(sc2.current, 2);
    sc2.swiped(SwipeDirection::Down);
    assert_eq!(sc2.current, 1);
}

#[test]
fn transition_offset_is_one_screen() {
    assert_eq!(GetAddressFlow::transition_offset(SwipeDirection::Up), Offset::new(0, -240));
    assert_eq!(GetAddressFlow::transition_offset(SwipeDirection::Down), Offset::new(0, 240));
    assert_eq!(GetAddressFlow::transition_offset(SwipeDirection::Left), Offset::new(-240, 0));
    assert_eq!(GetAddressFlow::transition_offset(SwipeDirection::Right), Offset::new(240, 0));
}

#[test]
fn hold_text_and_accessors() {
    let mut h = HoldToConfirm::text(
        ButtonPos::Left,
        String::from("HOLD"),
        40,
        Duration { ms: 1000 },
    );
    assert_eq!(h.get_text().as_str(), "HOLD");
    assert_eq!(h.get_duration(), Duration { ms: 1000 });
    h.set_duration(Duration { ms: 2000 });
    assert_eq!(h.get_duration(), Duration { ms: 2000 });
    h.reset();
    assert_eq!(h.loader, LoaderState::Initial);
}

#[test]
fn hold_placement_bands() {
    let h = HoldToConfirm::text(ButtonPos::Left, String::from("X"), 13, Duration { ms: 1 });
    let area = rect(0, 0, 100, 20);
    // The band is text width plus seven pixels wide.
    assert_eq!(h.placement(area, ButtonPos::Left), rect(0, 0, 20, 20));
    assert_eq!(h.placement(area, ButtonPos::Right), rect(80, 0, 100, 20));
    assert_eq!(h.placement(area, ButtonPos::Middle), rect(40, 0, 60, 20));
}

#[test]
fn set_text() {
    let mut h = HoldToConfirm::text(ButtonPos::Right, String::from("A"), 3, Duration { ms: 1 });
    h.set_text(String::from("LONGER"), 33, rect(0, 0, 100, 20));
    assert_eq!(h.get_text().as_str(), "LONGER");
    assert_eq!(h.area, rect(60, 0, 100, 20));
}

#[test]
fn hold_to_completion_confirms() {
    let mut h = HoldToConfirm::text(ButtonPos::Middle, String::from("OK"), 20, Duration {
        ms: 1000,
    });
    assert!(h.event(ButtonEvent::HoldStarted, 100).is_none());
    assert!(h.event(ButtonEvent::Tick, 600).is_none());
    assert_eq!(h.event(ButtonEvent::Tick, 1100), Some(HoldToConfirmMsg::Confirmed));
}

#[test]
fn hold_released_early_fails_after_shrinking() {
    let mut h = HoldToConfirm::text(ButtonPos::Middle, String::from("OK"), 20, Duration {
        ms: 1000,
    });
    assert!(h.event(ButtonEvent::HoldStarted, 0).is_none());
    assert!(h.event(ButtonEvent::HoldEnded, 400).is_none());
    assert!(matches!(h.loader, LoaderState::Shrinking { start_ms: 400 }));
    assert!(h.event(ButtonEvent::Tick, 900).is_none());
    assert_eq!(h.event(ButtonEvent::Tick, 1400), Some(HoldToConfirmMsg::FailedToConfirm));
    assert_eq!(h.loader, LoaderState::Initial);
}

#[test]
fn popup_without_button_confirms_after_animation() {
    let mut p = ResultPopup::new(vec![1, 2, 3], String::from("done"), None, None, 0);
    p.start();
    assert!(p.event(false, false).is_none());
    assert_eq!(p.event(false, true), Some(ResultPopupMsg::Confirmed));
    assert_eq!(p.state, framecore::popup::State::AnimationDone);
}

#[test]
fn popup_with_button_waits_for_the_click() {
    let mut p = ResultPopup::new(
        vec![],
        String::from("done"),
        None,
        Some(String::from("CONTINUE")),
        0,
    );
    p.start();
    assert!(p.event(false, true).is_none());
    assert_eq!(p.event(true, false), Some(ResultPopupMsg::Confirmed));
}

#[test]
fn popup_autoclose_skips_the_button() {
    let mut p = ResultPopup::new(
        vec![],
        String::from("done"),
        None,
        Some(String::from("CONTINUE")),
        0,
    );
    p.autoclose();
    p.start();
    assert_eq!(p.event(false, true), Some(ResultPopupMsg::Confirmed));
}

#[test]
fn popup_place_without_extras() {
    let mut p = ResultPopup::new(vec![], String::from("t"), None, None, 0);
    let bounds = rect(0, 0, 128, 128);
    assert_eq!(p.place(bounds), bounds);
    assert_eq!(p.button_area, None);
    assert_eq!(p.headline_area, None);
    assert_eq!(p.text_area, rect(0, 64, 128, 128));
    assert_eq!(p.anim_area, rect(55, 27, 73, 45));
}

#[test]
fn popup_place_with_button_and_headline() {
    let mut p = ResultPopup::new(
        vec![],
        String::from("t"),
        Some(String::from("HEAD")),
        Some(String::from("OK")),
        12,
    );
    let bounds = rect(0, 0, 128, 128);
    p.place(bounds);
    assert_eq!(p.button_area, Some(rect(0, 115, 128, 128)));
    assert_eq!(p.headline_area, Some(rect(0, 54, 128, 66)));
    assert_eq!(p.text_area, rect(0, 74, 128, 115));
    assert_eq!(p.anim_area, rect(55, 17, 73, 35));
}

#[test]
fn message_text_theme_is_white_on_black() {
    assert_eq!(MessageText::background_color(), Color(0x0000));
    assert_eq!(MessageText::text_color(), Color(0xFFFF));
}

#[test]
fn begin_frame_needs_a_full_frame_buffer() {
    assert!(begin_frame(vec![0u8; FRAME_BUFFER_BYTES - 1], None, None).is_none());
    let (canvas, mut cache) = begin_frame(vec![0u8; FRAME_BUFFER_BYTES], None, None).unwrap();
    let size = canvas.size();
    assert_eq!((size.x, size.y), (240, 240));
    assert_eq!(cache.claim_scratch(0), true);
    let vp = canvas.viewport();
    assert_eq!(vp.clip, rect(0, 0, 240, 240));
}

#[test]
fn begin_frame_applies_clip_and_background() {
    let clip = rect(10, 10, 20, 20);
    let red = Color::from_rgb(255, 0, 0);
    let (mut canvas, _cache) =
        begin_frame(vec![0u8; FRAME_BUFFER_BYTES], Some(clip), Some(red)).unwrap();
    assert_eq!(canvas.viewport().clip, clip);
    let row = canvas.row_mut(15).unwrap();
    assert_eq!(row[9], 0x0000);
    assert_eq!(row[10], 0xF800);
    assert_eq!(row[19], 0xF800);
    assert_eq!(row[20], 0x0000);
    let row_out = canvas.row_mut(9).unwrap();
    assert_eq!(row_out[15], 0x0000);
}
