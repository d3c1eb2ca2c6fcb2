//! The Linux/macOS capture backend's decisions: how events of a global input
//! grab become portable events. The grab itself (the `rdev` crate) runs in the
//! platform layer, which hands its events here as the plain values below.

use vstd::prelude::*;
use crate::input::CapturedEvent;
use crate::protocol::{InputEvent, Key, MouseButton};

verus! {

/// The keys a global grab reports (`rdev::Key`'s variants that have a portable
/// counterpart; `Other` for the rest).
#[derive(Clone, Copy, Debug, PartialEq, Eq, Structural)]
pub enum RdevKey {
    KeyA,
    KeyB,
    KeyC,
    KeyD,
    KeyE,
    KeyF,
    KeyG,
    KeyH,
    KeyI,
    KeyJ,
    KeyK,
    KeyL,
    KeyM,
    KeyN,
    KeyO,
    KeyP,
    KeyQ,
    KeyR,
    KeyS,
    KeyT,
    KeyU,
    KeyV,
    KeyW,
    KeyX,
    KeyY,
    KeyZ,
    Num1,
    Num2,
    Num3,
    Num4,
    Num5,
    Num6,
    Num7,
    Num8,
    Num9,
    Num0,
    F1,
    F2,
    F3,
    F4,
    F5,
    F6,
    F7,
    F8,
    F9,
    F10,
    F11,
    F12,
    ControlLeft,
    ControlRight,
    ShiftLeft,
    ShiftRight,
    Alt,
    AltGr,
    MetaLeft,
    MetaRight,
    Return,
    Escape,
    Backspace,
    Tab,
    Space,
    CapsLock,
    Delete,
    Insert,
    Home,
    End,
    PageUp,
    PageDown,
    UpArrow,
    DownArrow,
    LeftArrow,
    RightArrow,
    Minus,
    Equal,
    LeftBracket,
    RightBracket,
    BackSlash,
    SemiColon,
    Quote,
    BackQuote,
    Comma,
    Dot,
    Slash,
    Kp0,
    Kp1,
    Kp2,
    Kp3,
    Kp4,
    Kp5,
    Kp6,
    Kp7,
    Kp8,
    Kp9,
    KpPlus,
    KpMinus,
    KpMultiply,
    KpDivide,
    KpReturn,
    PrintScreen,
    ScrollLock,
    Pause,
    NumLock,
    /// A platform key code without a name.
    Unknown(u32),
    /// Any other named key.
    Other,
}

/// The mouse buttons a global grab reports.
#[derive(Clone, Copy, Debug, PartialEq, Eq, Structural)]
pub enum RdevButton {
    Left,
    Right,
    Middle,
    Unknown(u8),
}

/// The portable key of a grabbed key: the same position, the right Alt as
/// `AltRight`, unnamed codes as `Raw`, other named keys as `Raw(0)`.
pub open spec fn key_of_rdev(k: RdevKey) -> Key {
    match k {
        RdevKey::KeyA => Key::A,
        RdevKey::KeyB => Key::B,
        RdevKey::KeyC => Key::C,
        RdevKey::KeyD => Key::D,
        RdevKey::KeyE => Key::E,
        RdevKey::KeyF => Key::F,
        RdevKey::KeyG => Key::G,
        RdevKey::KeyH => Key::H,
        RdevKey::KeyI => Key::I,
        RdevKey::KeyJ => Key::J,
        RdevKey::KeyK => Key::K,
        RdevKey::KeyL => Key::L,
        RdevKey::KeyM => Key::M,
        RdevKey::KeyN => Key::N,
        RdevKey::KeyO => Key::O,
        RdevKey::KeyP => Key::P,
        RdevKey::KeyQ => Key::Q,
        RdevKey::KeyR => Key::R,
        RdevKey::KeyS => Key::S,
        RdevKey::KeyT => Key::T,
        RdevKey::KeyU => Key::U,
        RdevKey::KeyV => Key::V,
        RdevKey::KeyW => Key::W,
        RdevKey::KeyX => Key::X,
        RdevKey::KeyY => Key::Y,
        RdevKey::KeyZ => Key::Z,
        RdevKey::Num1 => Key::Num1,
        RdevKey::Num2 => Key::Num2,
        RdevKey::Num3 => Key::Num3,
        RdevKey::Num4 => Key::Num4,
        RdevKey::Num5 => Key::Num5,
        RdevKey::Num6 => Key::Num6,
        RdevKey::Num7 => Key::Num7,
        RdevKey::Num8 => Key::Num8,
        RdevKey::Num9 => Key::Num9,
        RdevKey::Num0 => Key::Num0,
        RdevKey::F1 => Key::F1,
        RdevKey::F2 => Key::F2,
        RdevKey::F3 => Key::F3,
        RdevKey::F4 => Key::F4,
        RdevKey::F5 => Key::F5,
        RdevKey::F6 => Key::F6,
        RdevKey::F7 => Key::F7,
        RdevKey::F8 => Key::F8,
        RdevKey::F9 => Key::F9,
        RdevKey::F10 => Key::F10,
        RdevKey::F11 => Key::F11,
        RdevKey::F12 => Key::F12,
        RdevKey::ControlLeft => Key::ControlLeft,
        RdevKey::ControlRight => Key::ControlRight,
        RdevKey::ShiftLeft => Key::ShiftLeft,
        RdevKey::ShiftRight => Key::ShiftRight,
        RdevKey::Alt => Key::AltLeft,
        RdevKey::AltGr => Key::AltRight,
        RdevKey::MetaLeft => Key::MetaLeft,
        RdevKey::MetaRight => Key::MetaRight,
        RdevKey::Return => Key::Enter,
        RdevKey::Escape => Key::Escape,
        RdevKey::Backspace => Key::Backspace,
        RdevKey::Tab => Key::Tab,
        RdevKey::Space => Key::Space,
        RdevKey::CapsLock => Key::CapsLock,
        RdevKey::Delete => Key::Delete,
        RdevKey::Insert => Key::Insert,
        RdevKey::Home => Key::Home,
        RdevKey::End => Key::End,
        RdevKey::PageUp => Key::PageUp,
        RdevKey::PageDown => Key::PageDown,
        RdevKey::UpArrow => Key::ArrowUp,
        RdevKey::DownArrow => Key::ArrowDown,
        RdevKey::LeftArrow => Key::ArrowLeft,
        RdevKey::RightArrow => Key::ArrowRight,
        RdevKey::Minus => Key::Minus,
        RdevKey::Equal => Key::Equal,
        RdevKey::LeftBracket => Key::BracketLeft,
        RdevKey::RightBracket => Key::BracketRight,
        RdevKey::BackSlash => Key::Backslash,
        RdevKey::SemiColon => Key::Semicolon,
        RdevKey::Quote => Key::Quote,
        RdevKey::BackQuote => Key::Backquote,
        RdevKey::Comma => Key::Comma,
        RdevKey::Dot => Key::Period,
        RdevKey::Slash => Key::Slash,
        RdevKey::Kp0 => Key::Numpad0,
        RdevKey::Kp1 => Key::Numpad1,
        RdevKey::Kp2 => Key::Numpad2,
        RdevKey::Kp3 => Key::Numpad3,
        RdevKey::Kp4 => Key::Numpad4,
        RdevKey::Kp5 => Key::Numpad5,
        RdevKey::Kp6 => Key::Numpad6,
        RdevKey::Kp7 => Key::Numpad7,
        RdevKey::Kp8 => Key::Numpad8,
        RdevKey::Kp9 => Key::Numpad9,
        RdevKey::KpPlus => Key::NumpadAdd,
        RdevKey::KpMinus => Key::NumpadSubtract,
        RdevKey::KpMultiply => Key::NumpadMultiply,
        RdevKey::KpDivide => Key::NumpadDivide,
        RdevKey::KpReturn => Key::NumpadEnter,
        RdevKey::PrintScreen => Key::PrintScreen,
        RdevKey::ScrollLock => Key::ScrollLock,
        RdevKey::Pause => Key::Pause,
        RdevKey::NumLock => Key::NumLock,
        RdevKey::Unknown(n) => Key::Raw(n),
        RdevKey::Other => Key::Raw(0),
    }
}

/// Map a grabbed key to the portable model.
pub fn from_rdev_key(k: RdevKey) -> (r: Key)
    ensures
        r == key_of_rdev(k),
{
    match k {
        RdevKey::KeyA => Key::A,
        RdevKey::KeyB => Key::B,
        RdevKey::KeyC => Key::C,
        RdevKey::KeyD => Key::D,
        RdevKey::KeyE => Key::E,
        RdevKey::KeyF => Key::F,
        RdevKey::KeyG => Key::G,
        RdevKey::KeyH => Key::H,
        RdevKey::KeyI => Key::I,
        RdevKey::KeyJ => Key::J,
        RdevKey::KeyK => Key::K,
        RdevKey::KeyL => Key::L,
        RdevKey::KeyM => Key::M,
        RdevKey::KeyN => Key::N,
        RdevKey::KeyO => Key::O,
        RdevKey::KeyP => Key::P,
        RdevKey::KeyQ => Key::Q,
        RdevKey::KeyR => Key::R,
        RdevKey::KeyS => Key::S,
        RdevKey::KeyT => Key::T,
        RdevKey::KeyU => Key::U,
        RdevKey::KeyV => Key::V,
        RdevKey::KeyW => Key::W,
        RdevKey::KeyX => Key::X,
        RdevKey::KeyY => Key::Y,
        RdevKey::KeyZ => Key::Z,
        RdevKey::Num1 => Key::Num1,
        RdevKey::Num2 => Key::Num2,
        RdevKey::Num3 => Key::Num3,
        RdevKey::Num4 => Key::Num4,
        RdevKey::Num5 => Key::Num5,
        RdevKey::Num6 => Key::Num6,
        RdevKey::Num7 => Key::Num7,
        RdevKey::Num8 => Key::Num8,
        RdevKey::Num9 => Key::Num9,
        RdevKey::Num0 => Key::Num0,
        RdevKey::F1 => Key::F1,
        RdevKey::F2 => Key::F2,
        RdevKey::F3 => Key::F3,
        RdevKey::F4 => Key::F4,
        RdevKey::F5 => Key::F5,
        RdevKey::F6 => Key::F6,
        RdevKey::F7 => Key::F7,
        RdevKey::F8 => Key::F8,
        RdevKey::F9 => Key::F9,
        RdevKey::F10 => Key::F10,
        RdevKey::F11 => Key::F11,
        RdevKey::F12 => Key::F12,
        RdevKey::ControlLeft => Key::ControlLeft,
        RdevKey::ControlRight => Key::ControlRight,
        RdevKey::ShiftLeft => Key::ShiftLeft,
        RdevKey::ShiftRight => Key::ShiftRight,
        RdevKey::Alt => Key::AltLeft,
        RdevKey::AltGr => Key::AltRight,
        RdevKey::MetaLeft => Key::MetaLeft,
        RdevKey::MetaRight => Key::MetaRight,
        RdevKey::Return => Key::Enter,
        RdevKey::Escape => Key::Escape,
        RdevKey::Backspace => Key::Backspace,
        RdevKey::Tab => Key::Tab,
        RdevKey::Space => Key::Space,
        RdevKey::CapsLock => Key::CapsLock,
        RdevKey::Delete => Key::Delete,
        RdevKey::Insert => Key::Insert,
        RdevKey::Home => Key::Home,
        RdevKey::End => Key::End,
        RdevKey::PageUp => Key::PageUp,
        RdevKey::PageDown => Key::PageDown,
        RdevKey::UpArrow => Key::ArrowUp,
        RdevKey::DownArrow => Key::ArrowDown,
        RdevKey::LeftArrow => Key::ArrowLeft,
        RdevKey::RightArrow => Key::ArrowRight,
        RdevKey::Minus => Key::Minus,
        RdevKey::Equal => Key::Equal,
        RdevKey::LeftBracket => Key::BracketLeft,
        RdevKey::RightBracket => Key::BracketRight,
        RdevKey::BackSlash => Key::Backslash,
        RdevKey::SemiColon => Key::Semicolon,
        RdevKey::Quote => Key::Quote,
        RdevKey::BackQuote => Key::Backquote,
        RdevKey::Comma => Key::Comma,
        RdevKey::Dot => Key::Period,
        RdevKey::Slash => Key::Slash,
        RdevKey::Kp0 => Key::Numpad0,
        RdevKey::Kp1 => Key::Numpad1,
        RdevKey::Kp2 => Key::Numpad2,
        RdevKey::Kp3 => Key::Numpad3,
        RdevKey::Kp4 => Key::Numpad4,
        RdevKey::Kp5 => Key::Numpad5,
        RdevKey::Kp6 => Key::Numpad6,
        RdevKey::Kp7 => Key::Numpad7,
        RdevKey::Kp8 => Key::Numpad8,
        RdevKey::Kp9 => Key::Numpad9,
        RdevKey::KpPlus => Key::NumpadAdd,
        RdevKey::KpMinus => Key::NumpadSubtract,
        RdevKey::KpMultiply => Key::NumpadMultiply,
        RdevKey::KpDivide => Key::NumpadDivide,
        RdevKey::KpReturn => Key::NumpadEnter,
        RdevKey::PrintScreen => Key::PrintScreen,
        RdevKey::ScrollLock => Key::ScrollLock,
        RdevKey::Pause => Key::Pause,
        RdevKey::NumLock => Key::NumLock,
        RdevKey::Unknown(n) => Key::Raw(n),
        RdevKey::Other => Key::Raw(0),
    }
}

/// The portable button of a grabbed button: extra button 9 is X2, any other
/// extra button X1.
pub open spec fn button_of_rdev(b: RdevButton) -> MouseButton {
    match b {
        RdevButton::Left => MouseButton::Left,
        RdevButton::Right => MouseButton::Right,
        RdevButton::Middle => MouseButton::Middle,
        RdevButton::Unknown(n) => if n == 9 {
            MouseButton::X2
        } else {
            MouseButton::X1
        },
    }
}

pub fn from_rdev_button(b: RdevButton) -> (r: MouseButton)
    ensures
        r == button_of_rdev(b),
{
    match b {
        RdevButton::Left => MouseButton::Left,
        RdevButton::Right => MouseButton::Right,
        RdevButton::Middle => MouseButton::Middle,
        RdevButton::Unknown(9) => MouseButton::X2,
        RdevButton::Unknown(_) => MouseButton::X1,
    }
}

/// One event of the grab, with the pointer position already in whole pixels.
#[derive(Clone, Copy, Debug, PartialEq, Eq, Structural)]
pub enum GrabEvent {
    MouseMove { x: i32, y: i32 },
    KeyPress(RdevKey),
    KeyRelease(RdevKey),
    ButtonPress(RdevButton),
    ButtonRelease(RdevButton),
    Wheel { delta_x: i64, delta_y: i64 },
}

/// The grab's memory of the pointer: its last position, once one was seen.
pub struct GrabState {
    pub last: Option<(i32, i32)>,
}

/// The event a grabbed event reports. The first pointer position only primes
/// the delta; motion without displacement reports nothing; wheel deltas are
/// truncated to 32 bits.
pub open spec fn grab_report(last: Option<(i32, i32)>, ev: GrabEvent) -> Option<CapturedEvent> {
    match ev {
        GrabEvent::MouseMove { x, y } => match last {
            Some((ox, oy)) if x != ox || y != oy => Some(
                CapturedEvent::Move { dx: (x - ox) as i32, dy: (y - oy) as i32, abs_x: x, abs_y: y },
            ),
            _ => None,
        },
        GrabEvent::KeyPress(k) => Some(CapturedEvent::Input(InputEvent::Key { key: key_of_rdev(k), pressed: true })),
        GrabEvent::KeyRelease(k) => Some(CapturedEvent::Input(InputEvent::Key { key: key_of_rdev(k), pressed: false })),
        GrabEvent::ButtonPress(b) => Some(
            CapturedEvent::Input(InputEvent::MouseButton { button: button_of_rdev(b), pressed: true }),
        ),
        GrabEvent::ButtonRelease(b) => Some(
            CapturedEvent::Input(InputEvent::MouseButton { button: button_of_rdev(b), pressed: false }),
        ),
        GrabEvent::Wheel { delta_x, delta_y } => Some(
            CapturedEvent::Input(InputEvent::MouseWheel { dx: delta_x as i32, dy: delta_y as i32 }),
        ),
    }
}

/// Whether a pointer move fits the `i32` delta arithmetic.
pub open spec fn grab_move_fits(last: Option<(i32, i32)>, ev: GrabEvent) -> bool {
    match (ev, last) {
        (GrabEvent::MouseMove { x, y }, Some((ox, oy))) => i32::MIN <= x - ox <= i32::MAX
            && i32::MIN <= y - oy <= i32::MAX,
        _ => true,
    }
}

impl GrabState {
    pub fn new() -> (r: Self)
        ensures
            r.last is None,
    {
        GrabState { last: None }
    }

    /// Handle one grabbed event: what to report, with the pointer position
    /// remembered for the next delta.
    pub fn on_event(&mut self, ev: GrabEvent) -> (r: Option<CapturedEvent>)
        requires
            grab_move_fits(old(self).last, ev),
        ensures
            r == grab_report(old(self).last, ev),
            final(self).last == (match ev {
                GrabEvent::MouseMove { x, y } => Some((x, y)),
                _ => old(self).last,
            }),
    {
        match ev {
            GrabEvent::MouseMove { x, y } => {
                let prev = self.last;
                self.last = Some((x, y));
                match prev {
                    Some((ox, oy)) => {
                        if x != ox || y != oy {
                            Some(CapturedEvent::Move { dx: x - ox, dy: y - oy, abs_x: x, abs_y: y })
                        } else {
                            None
                        }
                    },
                    None => None,
                }
            },
            GrabEvent::KeyPress(k) => Some(
                CapturedEvent::Input(InputEvent::Key { key: from_rdev_key(k), pressed: true }),
            ),
            GrabEvent::KeyRelease(k) => Some(
                CapturedEvent::Input(InputEvent::Key { key: from_rdev_key(k), pressed: false }),
            ),
            GrabEvent::ButtonPress(b) => Some(
                CapturedEvent::Input(InputEvent::MouseButton { button: from_rdev_button(b), pressed: true }),
            ),
            GrabEvent::ButtonRelease(b) => Some(
                CapturedEvent::Input(InputEvent::MouseButton { button: from_rdev_button(b), pressed: false }),
            ),
            GrabEvent::Wheel { delta_x, delta_y } => Some(
                CapturedEvent::Input(InputEvent::MouseWheel { dx: delta_x as i32, dy: delta_y as i32 }),
            ),
        }
    }
}

} // verus!
