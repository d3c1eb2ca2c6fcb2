use screenlink::edge::{ControlSite, EdgeDetector, Rect, Transition};
use screenlink::enigo_map::{plan_enigo, to_button, to_enigo_key, EnigoAction, EnigoButton, EnigoKey};
use screenlink::hostinput::{HostAction, HostInput};
use screenlink::hotkey::{is_modifier, park_fits, park_position, HotkeyDetector};
use screenlink::input::{desktop_rect, CapturedEvent, StubInjector};
use screenlink::keymap_win::{key_for_vk, vk_for, VkMapping};
use screenlink::protocol::{InputEvent, Key, MouseButton, ScreenEdge};
use screenlink::rdev_map::{from_rdev_button, from_rdev_key, GrabEvent, GrabState, RdevButton, RdevKey};
use screenlink::winhooks::{
    button_flags, key_inputs, mouse_button_or_wheel, on_hook_button, on_hook_key, on_hook_move,
    on_raw_mouse, plan_inject, xbutton, InjectPlan, KeyInput, INJECT_SIGNATURE, KEYEVENTF_KEYUP,
    KEYEVENTF_UNICODE, MOUSEEVENTF_HWHEEL, MOUSEEVENTF_LEFTDOWN, MOUSEEVENTF_WHEEL,
    MOUSEEVENTF_XUP, WM_KEYDOWN, WM_LBUTTONDOWN, WM_MOUSEWHEEL, WM_SYSKEYUP, WM_XBUTTONDOWN,
    XBUTTON2,
};

fn screen() -> Rect {
    Rect::new(0, 0, 1920, 1080)
}

fn entry_norm(offset: i64, span: i32) -> f32 {
    if span <= 0 {
        0.5
    } else {
        (offset as f32 / span as f32).clamp(0.0, 1.0)
    }
}

// ---- edge detection ----

#[test]
fn crosses_to_remote_at_right_edge() {
    let mut d = EdgeDetector::new(ScreenEdge::Right, 20);
    assert_eq!(d.update_local(960, 540, screen()), None);
    let t = d.update_local(1919, 270, screen());
    match t {
        Some(Transition::ToRemote { offset, span }) => {
            assert!((entry_norm(offset, span) - 0.25).abs() < 0.01);
        }
        other => panic!("expected ToRemote, got {other:?}"),
    }
    assert_eq!(d.site(), ControlSite::Remote);
}

#[test]
fn local_updates_ignored_once_remote() {
    let mut d = EdgeDetector::new(ScreenEdge::Right, 20);
    d.update_local(1919, 540, screen());
    assert_eq!(d.site(), ControlSite::Remote);
    assert_eq!(d.update_local(5, 5, screen()), None);
}

#[test]
fn returns_home_only_when_pushing_into_return_edge() {
    let mut d = EdgeDetector::new(ScreenEdge::Right, 20);
    d.update_local(1919, 540, screen());
    assert_eq!(d.update_remote(50, 0, false), None);
    assert_eq!(d.update_remote(-100, 0, false), None);
    assert_eq!(d.update_remote(-10, 0, true), None);
    let t = d.update_remote(-20, 0, true);
    assert_eq!(t, Some(Transition::ToLocal));
    assert_eq!(d.site(), ControlSite::Local);
}

#[test]
fn mid_remote_motion_never_strands_user() {
    let mut d = EdgeDetector::new(ScreenEdge::Right, 25);
    d.update_local(1919, 540, screen());
    for _ in 0..1000 {
        assert_eq!(d.update_remote(-50, 0, false), None);
        assert_eq!(d.update_remote(50, 0, false), None);
    }
    assert_eq!(d.site(), ControlSite::Remote);
}

#[test]
fn forward_motion_resets_back_push() {
    let mut d = EdgeDetector::new(ScreenEdge::Right, 20);
    d.update_local(1919, 540, screen());
    assert_eq!(d.update_remote(-15, 0, true), None);
    assert_eq!(d.update_remote(10, 0, true), None);
    assert_eq!(d.update_remote(-15, 0, true), None);
    let t = d.update_remote(-10, 0, true);
    assert_eq!(t, Some(Transition::ToLocal));
}

#[test]
fn left_edge_uses_opposite_axis_sign() {
    let mut d = EdgeDetector::new(ScreenEdge::Left, 10);
    d.update_local(0, 540, screen());
    assert_eq!(d.update_remote(-100, 0, false), None);
    assert_eq!(d.update_remote(20, 0, true), Some(Transition::ToLocal));
}

#[test]
fn force_home_only_acts_when_remote() {
    let mut d = EdgeDetector::new(ScreenEdge::Bottom, 10);
    assert_eq!(d.force_home(), None);
    d.update_local(960, 1079, screen());
    assert_eq!(d.force_home(), Some(Transition::ToLocal));
    assert_eq!(d.site(), ControlSite::Local);
}

#[test]
fn crossing_reports_offset_along_the_edge() {
    let mut d = EdgeDetector::new(ScreenEdge::Bottom, 10);
    assert_eq!(
        d.update_local(480, 1079, screen()),
        Some(Transition::ToRemote { offset: 480, span: 1920 })
    );
    let mut t = EdgeDetector::new(ScreenEdge::Top, 10);
    assert_eq!(
        t.update_local(100, 0, Rect::new(-1920, 0, 1920, 1080)),
        Some(Transition::ToRemote { offset: 2020, span: 1920 })
    );
}

#[test]
fn changing_edge_while_local() {
    let mut d = EdgeDetector::new(ScreenEdge::Right, 10);
    d.set_edge(ScreenEdge::Left);
    assert_eq!(d.edge(), ScreenEdge::Left);
    assert_eq!(d.update_local(1919, 540, screen()), None);
    assert!(d.update_local(0, 540, screen()).is_some());
}

// ---- key maps ----

#[test]
fn letters_roundtrip_through_vk() {
    for key in [Key::A, Key::Z, Key::Num5, Key::F7, Key::Home, Key::Slash] {
        if let VkMapping::Vk(vk, ext) = vk_for(key) {
            assert_eq!(key_for_vk(vk, ext), key, "roundtrip failed for {key:?}");
        } else {
            panic!("expected Vk mapping for {key:?}");
        }
    }
}

#[test]
fn char_maps_to_unicode_path() {
    assert!(matches!(vk_for(Key::Char('é')), VkMapping::Unicode('é')));
}

#[test]
fn unknown_vk_falls_back_to_raw() {
    assert_eq!(key_for_vk(0xFF, false), Key::Raw(0xFF));
}

#[test]
fn extended_flag_distinguishes_enter_keys() {
    assert_eq!(key_for_vk(0x0D, false), Key::Enter);
    assert_eq!(key_for_vk(0x0D, true), Key::NumpadEnter);
    assert_eq!(vk_for(Key::NumpadEnter), VkMapping::Vk(0x0D, true));
    assert_eq!(vk_for(Key::A), VkMapping::Vk(0x41, false));
}

// ---- hotkey and parking ----

#[test]
fn snap_home_chord_requires_all_three() {
    let mut h = HotkeyDetector::default();
    assert!(!h.on_key(Key::Home, true));
    h.on_key(Key::ControlLeft, true);
    assert!(!h.on_key(Key::Home, true));
    h.on_key(Key::AltLeft, true);
    assert!(h.on_key(Key::Home, true));
    h.on_key(Key::ControlLeft, false);
    assert!(!h.on_key(Key::Home, true));
}

#[test]
fn chord_only_fires_on_press_not_release() {
    let mut h = HotkeyDetector::default();
    h.on_key(Key::ControlRight, true);
    h.on_key(Key::AltRight, true);
    assert!(h.on_key(Key::Home, true));
    assert!(!h.on_key(Key::Home, false));
}

#[test]
fn chord_fires_with_other_hand_ctrl_released() {
    let mut h = HotkeyDetector::default();
    h.on_key(Key::ControlLeft, true);
    h.on_key(Key::ControlRight, true);
    h.on_key(Key::ControlRight, false);
    h.on_key(Key::AltLeft, true);
    assert!(h.on_key(Key::Home, true));
}

#[test]
fn host_input_chord_requests_snap_home_and_is_not_relayed() {
    let mut h = HostInput::new(ScreenEdge::Right, 20, screen());
    h.on_move(5, 0, 1919, 540, false);
    h.on_input(InputEvent::Key { key: Key::ControlLeft, pressed: true });
    h.on_input(InputEvent::Key { key: Key::AltRight, pressed: true });
    let acts = h.on_input(InputEvent::Key { key: Key::Home, pressed: true });
    assert_eq!(acts, vec![HostAction::RequestSnapHome]);
}

#[test]
fn modifiers_are_recognized() {
    assert!(is_modifier(Key::ShiftLeft));
    assert!(is_modifier(Key::MetaRight));
    assert!(!is_modifier(Key::A));
    assert!(!is_modifier(Key::Home));
}

#[test]
fn park_fits_rejects_positions_near_the_integer_limits() {
    assert!(park_fits(1919, 540, screen()));
    assert!(!park_fits(i32::MAX, 540, screen()));
    assert!(!park_fits(100, i32::MIN, screen()));
}

#[test]
fn park_position_stays_inside_desktop() {
    let d = screen();
    let (x, y) = park_position(ScreenEdge::Right, 1919, 540, d);
    assert!(x >= d.x && x < d.x + d.w && y >= d.y && y < d.y + d.h);
    let (x2, _) = park_position(ScreenEdge::Left, 0, 540, d);
    assert!(x2 >= d.x && x2 < d.x + d.w);
}

#[test]
fn host_input_crosses_and_relays() {
    let mut h = HostInput::new(ScreenEdge::Right, 20, screen());
    let acts = h.on_move(5, 0, 1919, 540, false);
    assert!(acts.iter().any(|a| matches!(a, HostAction::EdgeEnter { .. })));
    assert!(acts.contains(&HostAction::SetSuppress(true)));
    let key = h.on_input(InputEvent::Key { key: Key::A, pressed: true });
    assert!(key.contains(&HostAction::Relay(InputEvent::Key { key: Key::A, pressed: true })));
    let home = h.snap_home();
    assert!(home.contains(&HostAction::SetSuppress(false)));
    assert!(home.contains(&HostAction::EdgeLeave));
}

// ---- stubs ----

#[test]
fn default_desktop_is_full_hd() {
    assert_eq!(desktop_rect(), Rect::new(0, 0, 1920, 1080));
    assert_eq!(StubInjector::default().desktop_rect(), Rect::new(0, 0, 1920, 1080));
}

// ---- Windows hook decisions ----

#[test]
fn xbutton_two_is_x2() {
    assert_eq!(xbutton(2), MouseButton::X2);
    assert_eq!(xbutton(1), MouseButton::X1);
    assert_eq!(xbutton(7), MouseButton::X1);
}

#[test]
fn hook_buttons_and_wheel() {
    assert_eq!(
        mouse_button_or_wheel(WM_LBUTTONDOWN, 0, false),
        Some(InputEvent::MouseButton { button: MouseButton::Left, pressed: true })
    );
    assert_eq!(
        mouse_button_or_wheel(WM_XBUTTONDOWN, 2 << 16, false),
        Some(InputEvent::MouseButton { button: MouseButton::X2, pressed: true })
    );
    // A wheel notch down is -120 in the high word.
    let data = (0xFF88u32) << 16;
    assert_eq!(
        mouse_button_or_wheel(WM_MOUSEWHEEL, data, false),
        Some(InputEvent::MouseWheel { dx: 0, dy: -120 })
    );
    assert_eq!(mouse_button_or_wheel(WM_MOUSEWHEEL, data, true), None);
}

#[test]
fn hook_eats_buttons_only_while_suppressed() {
    let v = on_hook_button(WM_LBUTTONDOWN, 0, 0, true, true);
    assert!(v.eat);
    assert!(matches!(v.event, Some(CapturedEvent::Input(_))));
    assert!(!on_hook_button(WM_LBUTTONDOWN, 0, 0, false, true).eat);
    let own = on_hook_button(WM_LBUTTONDOWN, 0, INJECT_SIGNATURE, true, true);
    assert!(own.event.is_none() && !own.eat);
}

#[test]
fn hook_move_reports_deltas_and_parks() {
    let v = on_hook_move(110, 95, 0, 100, 100, false, true, None);
    assert_eq!(
        v.event,
        Some(CapturedEvent::Move { dx: 10, dy: -5, abs_x: 110, abs_y: 95 })
    );
    assert_eq!(v.last, (110, 95));
    assert!(!v.eat);
    let s = on_hook_move(1905, 540, 0, 1900, 540, true, true, Some((1900, 540)));
    assert_eq!(s.event, None);
    assert!(s.eat);
    assert_eq!(s.snap_to, Some((1900, 540)));
    assert_eq!(s.last, (1900, 540));
    let f = on_hook_move(1905, 540, 0, 1900, 540, true, false, Some((1900, 540)));
    assert!(f.event.is_some());
}

#[test]
fn hook_move_passes_our_own_injected_moves() {
    let v = on_hook_move(1905, 540, INJECT_SIGNATURE, 1900, 540, true, false, Some((1900, 540)));
    assert_eq!(v.event, None);
    assert!(!v.eat);
    assert_eq!(v.last, (1900, 540));
    assert_eq!(v.snap_to, None);
}

#[test]
fn hook_keys() {
    let v = on_hook_key(WM_KEYDOWN, 0x41, 0, 0, true);
    assert_eq!(
        v.event,
        Some(CapturedEvent::Input(InputEvent::Key { key: Key::A, pressed: true }))
    );
    assert!(v.eat);
    let up = on_hook_key(WM_SYSKEYUP, 0x0D, 1, 0, false);
    assert_eq!(
        up.event,
        Some(CapturedEvent::Input(InputEvent::Key { key: Key::NumpadEnter, pressed: false }))
    );
    assert!(!up.eat);
    assert!(on_hook_key(0x0200, 0x41, 0, 0, true).event.is_none());
}

#[test]
fn raw_input_reports_motion_and_wheel() {
    let ev = on_raw_mouse(0, 3, -4, 0x0400, 120, true, 10, 20);
    assert_eq!(
        ev,
        vec![
            CapturedEvent::Move { dx: 3, dy: -4, abs_x: 10, abs_y: 20 },
            CapturedEvent::Input(InputEvent::MouseWheel { dx: 0, dy: 120 }),
        ]
    );
    // Absolute reports and local control give no motion.
    assert!(on_raw_mouse(1, 3, -4, 0, 0, true, 0, 0).is_empty());
    assert!(on_raw_mouse(0, 3, -4, 0, 0, false, 0, 0).is_empty());
    assert_eq!(
        on_raw_mouse(0, 0, 0, 0x0800, 0xFF88, false, 0, 0),
        vec![CapturedEvent::Input(InputEvent::MouseWheel { dx: -120, dy: 0 })]
    );
}

#[test]
fn injection_records() {
    assert_eq!(button_flags(MouseButton::Left, true), (MOUSEEVENTF_LEFTDOWN, 0));
    assert_eq!(button_flags(MouseButton::X2, false), (MOUSEEVENTF_XUP, XBUTTON2));
    assert_eq!(
        plan_inject(InputEvent::MouseWheel { dx: 0, dy: -120 }),
        InjectPlan::Mouse { dx: 0, dy: 0, data: (-120i32) as u32, flags: MOUSEEVENTF_WHEEL }
    );
    assert_eq!(
        plan_inject(InputEvent::MouseWheel { dx: 30, dy: 0 }),
        InjectPlan::Mouse { dx: 0, dy: 0, data: 30, flags: MOUSEEVENTF_HWHEEL }
    );
    assert_eq!(
        key_inputs(Key::NumpadEnter, false),
        vec![KeyInput { vk: 0x0D, scan: 0, flags: KEYEVENTF_KEYUP | 1 }]
    );
    // A character outside the BMP is typed as a surrogate pair.
    assert_eq!(
        key_inputs(Key::Char('\u{1F600}'), true),
        vec![
            KeyInput { vk: 0, scan: 0xD83D, flags: KEYEVENTF_UNICODE },
            KeyInput { vk: 0, scan: 0xDE00, flags: KEYEVENTF_UNICODE },
        ]
    );
}

// ---- enigo mapping ----

#[test]
fn enigo_key_mapping() {
    assert_eq!(to_enigo_key(Key::A), Some(EnigoKey::Unicode('a')));
    assert_eq!(to_enigo_key(Key::Numpad7), Some(EnigoKey::Unicode('7')));
    assert_eq!(to_enigo_key(Key::ControlRight), Some(EnigoKey::Control));
    assert_eq!(to_enigo_key(Key::Char('ß')), Some(EnigoKey::Unicode('ß')));
    assert_eq!(to_enigo_key(Key::Insert), None);
    assert_eq!(to_enigo_key(Key::Raw(5)), None);
    assert_eq!(to_button(MouseButton::X1), EnigoButton::Back);
}

#[test]
fn enigo_vertical_scroll_is_negated() {
    assert_eq!(
        plan_enigo(InputEvent::MouseWheel { dx: 0, dy: 120 }),
        EnigoAction::Scroll { amount: -120, vertical: true }
    );
    assert_eq!(
        plan_enigo(InputEvent::Key { key: Key::PrintScreen, pressed: true }),
        EnigoAction::Skip
    );
}

// ---- global grab (rdev) decisions ----

#[test]
fn rdev_keys_and_buttons_map_to_positions() {
    assert_eq!(from_rdev_key(RdevKey::KeyQ), Key::Q);
    assert_eq!(from_rdev_key(RdevKey::AltGr), Key::AltRight);
    assert_eq!(from_rdev_key(RdevKey::Dot), Key::Period);
    assert_eq!(from_rdev_key(RdevKey::KpReturn), Key::NumpadEnter);
    assert_eq!(from_rdev_key(RdevKey::Unknown(77)), Key::Raw(77));
    assert_eq!(from_rdev_key(RdevKey::Other), Key::Raw(0));
    assert_eq!(from_rdev_button(RdevButton::Unknown(9)), MouseButton::X2);
    assert_eq!(from_rdev_button(RdevButton::Unknown(8)), MouseButton::X1);
}

#[test]
fn grab_primes_then_reports_deltas() {
    let mut g = GrabState::new();
    assert_eq!(g.on_event(GrabEvent::MouseMove { x: 100, y: 100 }), None);
    assert_eq!(
        g.on_event(GrabEvent::MouseMove { x: 103, y: 98 }),
        Some(CapturedEvent::Move { dx: 3, dy: -2, abs_x: 103, abs_y: 98 })
    );
    assert_eq!(g.on_event(GrabEvent::MouseMove { x: 103, y: 98 }), None);
    assert_eq!(
        g.on_event(GrabEvent::KeyRelease(RdevKey::Escape)),
        Some(CapturedEvent::Input(InputEvent::Key { key: Key::Escape, pressed: false }))
    );
    assert_eq!(
        g.on_event(GrabEvent::Wheel { delta_x: 0, delta_y: -1 }),
        Some(CapturedEvent::Input(InputEvent::MouseWheel { dx: 0, dy: -1 }))
    );
}
