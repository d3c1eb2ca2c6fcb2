//! The Linux/macOS injection backend's decisions: how a portable input event
//! becomes an `enigo` call. The `enigo` handle itself is owned by a worker
//! thread in `app/`, which converts these values to `enigo`'s own types.

use vstd::prelude::*;
use crate::protocol::{InputEvent, Key, MouseButton};
use crate::keymap_win::named_vk;
use crate::rdev_map::{key_of_rdev, RdevKey};

verus! {

/// The `enigo` keys the portable model maps to.
#[derive(Clone, Copy, Debug, PartialEq, Eq, Structural)]
pub enum EnigoKey {
    Unicode(char),
    Return,
    Escape,
    Backspace,
    Tab,
    Space,
    CapsLock,
    Delete,
    Home,
    End,
    PageUp,
    PageDown,
    UpArrow,
    DownArrow,
    LeftArrow,
    RightArrow,
    Control,
    Shift,
    Alt,
    Meta,
    F1,
    F2,
    F3,
    F4,
    F5,
    F6,
    F7,
    F8,
    F9,
    F10,
    F11,
    F12,
}

/// The `enigo` mouse buttons.
#[derive(Clone, Copy, Debug, PartialEq, Eq, Structural)]
pub enum EnigoButton {
    Left,
    Right,
    Middle,
    Back,
    Forward,
}

/// Best-effort map from the portable key model to `enigo`: letters, digits and
/// punctuation are typed as characters (numpad digits and operators too),
/// common control keys map to named keys, left and right modifiers to the
/// same key. Keys without a portable `enigo` equivalent (Insert, PrintScreen,
/// ScrollLock, Pause, NumLock, ContextMenu, raw codes) map to nothing.
pub open spec fn enigo_key_of(key: Key) -> Option<EnigoKey> {
    match key {
        Key::A => Some(EnigoKey::Unicode('a')),
        Key::B => Some(EnigoKey::Unicode('b')),
        Key::C => Some(EnigoKey::Unicode('c')),
        Key::D => Some(EnigoKey::Unicode('d')),
        Key::E => Some(EnigoKey::Unicode('e')),
        Key::F => Some(EnigoKey::Unicode('f')),
        Key::G => Some(EnigoKey::Unicode('g')),
        Key::H => Some(EnigoKey::Unicode('h')),
        Key::I => Some(EnigoKey::Unicode('i')),
        Key::J => Some(EnigoKey::Unicode('j')),
        Key::K => Some(EnigoKey::Unicode('k')),
        Key::L => Some(EnigoKey::Unicode('l')),
        Key::M => Some(EnigoKey::Unicode('m')),
        Key::N => Some(EnigoKey::Unicode('n')),
        Key::O => Some(EnigoKey::Unicode('o')),
        Key::P => Some(EnigoKey::Unicode('p')),
        Key::Q => Some(EnigoKey::Unicode('q')),
        Key::R => Some(EnigoKey::Unicode('r')),
        Key::S => Some(EnigoKey::Unicode('s')),
        Key::T => Some(EnigoKey::Unicode('t')),
        Key::U => Some(EnigoKey::Unicode('u')),
        Key::V => Some(EnigoKey::Unicode('v')),
        Key::W => Some(EnigoKey::Unicode('w')),
        Key::X => Some(EnigoKey::Unicode('x')),
        Key::Y => Some(EnigoKey::Unicode('y')),
        Key::Z => Some(EnigoKey::Unicode('z')),
        Key::Num0 => Some(EnigoKey::Unicode('0')),
        Key::Num1 => Some(EnigoKey::Unicode('1')),
        Key::Num2 => Some(EnigoKey::Unicode('2')),
        Key::Num3 => Some(EnigoKey::Unicode('3')),
        Key::Num4 => Some(EnigoKey::Unicode('4')),
        Key::Num5 => Some(EnigoKey::Unicode('5')),
        Key::Num6 => Some(EnigoKey::Unicode('6')),
        Key::Num7 => Some(EnigoKey::Unicode('7')),
        Key::Num8 => Some(EnigoKey::Unicode('8')),
        Key::Num9 => Some(EnigoKey::Unicode('9')),
        Key::Minus => Some(EnigoKey::Unicode('-')),
        Key::Equal => Some(EnigoKey::Unicode('=')),
        Key::BracketLeft => Some(EnigoKey::Unicode('[')),
        Key::BracketRight => Some(EnigoKey::Unicode(']')),
        Key::Backslash => Some(EnigoKey::Unicode('\\')),
        Key::Semicolon => Some(EnigoKey::Unicode(';')),
        Key::Quote => Some(EnigoKey::Unicode('\'')),
        Key::Backquote => Some(EnigoKey::Unicode('`')),
        Key::Comma => Some(EnigoKey::Unicode(',')),
        Key::Period => Some(EnigoKey::Unicode('.')),
        Key::Slash => Some(EnigoKey::Unicode('/')),
        Key::Numpad0 => Some(EnigoKey::Unicode('0')),
        Key::Numpad1 => Some(EnigoKey::Unicode('1')),
        Key::Numpad2 => Some(EnigoKey::Unicode('2')),
        Key::Numpad3 => Some(EnigoKey::Unicode('3')),
        Key::Numpad4 => Some(EnigoKey::Unicode('4')),
        Key::Numpad5 => Some(EnigoKey::Unicode('5')),
        Key::Numpad6 => Some(EnigoKey::Unicode('6')),
        Key::Numpad7 => Some(EnigoKey::Unicode('7')),
        Key::Numpad8 => Some(EnigoKey::Unicode('8')),
        Key::Numpad9 => Some(EnigoKey::Unicode('9')),
        Key::NumpadAdd => Some(EnigoKey::Unicode('+')),
        Key::NumpadSubtract => Some(EnigoKey::Unicode('-')),
        Key::NumpadMultiply => Some(EnigoKey::Unicode('*')),
        Key::NumpadDivide => Some(EnigoKey::Unicode('/')),
        Key::NumpadDecimal => Some(EnigoKey::Unicode('.')),
        Key::NumpadEnter => Some(EnigoKey::Return),
        Key::Enter => Some(EnigoKey::Return),
        Key::Escape => Some(EnigoKey::Escape),
        Key::Backspace => Some(EnigoKey::Backspace),
        Key::Tab => Some(EnigoKey::Tab),
        Key::Space => Some(EnigoKey::Space),
        Key::CapsLock => Some(EnigoKey::CapsLock),
        Key::Delete => Some(EnigoKey::Delete),
        Key::Home => Some(EnigoKey::Home),
        Key::End => Some(EnigoKey::End),
        Key::PageUp => Some(EnigoKey::PageUp),
        Key::PageDown => Some(EnigoKey::PageDown),
        Key::ArrowUp => Some(EnigoKey::UpArrow),
        Key::ArrowDown => Some(EnigoKey::DownArrow),
        Key::ArrowLeft => Some(EnigoKey::LeftArrow),
        Key::ArrowRight => Some(EnigoKey::RightArrow),
        Key::ControlLeft => Some(EnigoKey::Control),
        Key::ControlRight => Some(EnigoKey::Control),
        Key::ShiftLeft => Some(EnigoKey::Shift),
        Key::ShiftRight => Some(EnigoKey::Shift),
        Key::AltLeft => Some(EnigoKey::Alt),
        Key::AltRight => Some(EnigoKey::Alt),
        Key::MetaLeft => Some(EnigoKey::Meta),
        Key::MetaRight => Some(EnigoKey::Meta),
        Key::F1 => Some(EnigoKey::F1),
        Key::F2 => Some(EnigoKey::F2),
        Key::F3 => Some(EnigoKey::F3),
        Key::F4 => Some(EnigoKey::F4),
        Key::F5 => Some(EnigoKey::F5),
        Key::F6 => Some(EnigoKey::F6),
        Key::F7 => Some(EnigoKey::F7),
        Key::F8 => Some(EnigoKey::F8),
        Key::F9 => Some(EnigoKey::F9),
        Key::F10 => Some(EnigoKey::F10),
        Key::F11 => Some(EnigoKey::F11),
        Key::F12 => Some(EnigoKey::F12),
        Key::Char(c) => Some(EnigoKey::Unicode(c)),
        _ => None,
    }
}

/// The `enigo` key a grabbed key of each name stands for: a letter or digit key
/// types its (lowercase) character, every other named key is the `enigo` key of
/// the same name (either hand's modifier is the one modifier, `AltGr` is Alt,
/// the keypad's Return is Return).
pub open spec fn grabbed_as_enigo(r: RdevKey) -> Option<EnigoKey> {
    match r {
        RdevKey::KeyA => Some(EnigoKey::Unicode('a')),
        RdevKey::KeyB => Some(EnigoKey::Unicode('b')),
        RdevKey::KeyC => Some(EnigoKey::Unicode('c')),
        RdevKey::KeyD => Some(EnigoKey::Unicode('d')),
        RdevKey::KeyE => Some(EnigoKey::Unicode('e')),
        RdevKey::KeyF => Some(EnigoKey::Unicode('f')),
        RdevKey::KeyG => Some(EnigoKey::Unicode('g')),
        RdevKey::KeyH => Some(EnigoKey::Unicode('h')),
        RdevKey::KeyI => Some(EnigoKey::Unicode('i')),
        RdevKey::KeyJ => Some(EnigoKey::Unicode('j')),
        RdevKey::KeyK => Some(EnigoKey::Unicode('k')),
        RdevKey::KeyL => Some(EnigoKey::Unicode('l')),
        RdevKey::KeyM => Some(EnigoKey::Unicode('m')),
        RdevKey::KeyN => Some(EnigoKey::Unicode('n')),
        RdevKey::KeyO => Some(EnigoKey::Unicode('o')),
        RdevKey::KeyP => Some(EnigoKey::Unicode('p')),
        RdevKey::KeyQ => Some(EnigoKey::Unicode('q')),
        RdevKey::KeyR => Some(EnigoKey::Unicode('r')),
        RdevKey::KeyS => Some(EnigoKey::Unicode('s')),
        RdevKey::KeyT => Some(EnigoKey::Unicode('t')),
        RdevKey::KeyU => Some(EnigoKey::Unicode('u')),
        RdevKey::KeyV => Some(EnigoKey::Unicode('v')),
        RdevKey::KeyW => Some(EnigoKey::Unicode('w')),
        RdevKey::KeyX => Some(EnigoKey::Unicode('x')),
        RdevKey::KeyY => Some(EnigoKey::Unicode('y')),
        RdevKey::KeyZ => Some(EnigoKey::Unicode('z')),
        RdevKey::Num0 => Some(EnigoKey::Unicode('0')),
        RdevKey::Num1 => Some(EnigoKey::Unicode('1')),
        RdevKey::Num2 => Some(EnigoKey::Unicode('2')),
        RdevKey::Num3 => Some(EnigoKey::Unicode('3')),
        RdevKey::Num4 => Some(EnigoKey::Unicode('4')),
        RdevKey::Num5 => Some(EnigoKey::Unicode('5')),
        RdevKey::Num6 => Some(EnigoKey::Unicode('6')),
        RdevKey::Num7 => Some(EnigoKey::Unicode('7')),
        RdevKey::Num8 => Some(EnigoKey::Unicode('8')),
        RdevKey::Num9 => Some(EnigoKey::Unicode('9')),
        RdevKey::Return => Some(EnigoKey::Return),
        RdevKey::Escape => Some(EnigoKey::Escape),
        RdevKey::Backspace => Some(EnigoKey::Backspace),
        RdevKey::Tab => Some(EnigoKey::Tab),
        RdevKey::Space => Some(EnigoKey::Space),
        RdevKey::CapsLock => Some(EnigoKey::CapsLock),
        RdevKey::Delete => Some(EnigoKey::Delete),
        RdevKey::Home => Some(EnigoKey::Home),
        RdevKey::End => Some(EnigoKey::End),
        RdevKey::PageUp => Some(EnigoKey::PageUp),
        RdevKey::PageDown => Some(EnigoKey::PageDown),
        RdevKey::UpArrow => Some(EnigoKey::UpArrow),
        RdevKey::DownArrow => Some(EnigoKey::DownArrow),
        RdevKey::LeftArrow => Some(EnigoKey::LeftArrow),
        RdevKey::RightArrow => Some(EnigoKey::RightArrow),
        RdevKey::ControlLeft => Some(EnigoKey::Control),
        RdevKey::ControlRight => Some(EnigoKey::Control),
        RdevKey::ShiftLeft => Some(EnigoKey::Shift),
        RdevKey::ShiftRight => Some(EnigoKey::Shift),
        RdevKey::Alt => Some(EnigoKey::Alt),
        RdevKey::AltGr => Some(EnigoKey::Alt),
        RdevKey::MetaLeft => Some(EnigoKey::Meta),
        RdevKey::MetaRight => Some(EnigoKey::Meta),
        RdevKey::KpReturn => Some(EnigoKey::Return),
        RdevKey::F1 => Some(EnigoKey::F1),
        RdevKey::F2 => Some(EnigoKey::F2),
        RdevKey::F3 => Some(EnigoKey::F3),
        RdevKey::F4 => Some(EnigoKey::F4),
        RdevKey::F5 => Some(EnigoKey::F5),
        RdevKey::F6 => Some(EnigoKey::F6),
        RdevKey::F7 => Some(EnigoKey::F7),
        RdevKey::F8 => Some(EnigoKey::F8),
        RdevKey::F9 => Some(EnigoKey::F9),
        RdevKey::F10 => Some(EnigoKey::F10),
        RdevKey::F11 => Some(EnigoKey::F11),
        RdevKey::F12 => Some(EnigoKey::F12),
        _ => None,
    }
}

/// A key grabbed through `rdev` and injected through `enigo` presses the key of
/// the same name: the portable model in between neither swaps nor drops one.
pub proof fn law_grabbed_key_injects_as_itself(r: RdevKey)
    ensures
        grabbed_as_enigo(r) matches Some(e) ==> enigo_key_of(key_of_rdev(r)) == Some(e),
{
}

/// Whether `vk` is a Windows virtual-key code of the named `enigo` key `e`
/// (either hand's code for a modifier).
pub open spec fn enigo_key_has_vk(e: EnigoKey, vk: u16) -> bool {
    match e {
        EnigoKey::Return => vk == 0x0D,
        EnigoKey::Escape => vk == 0x1B,
        EnigoKey::Backspace => vk == 0x08,
        EnigoKey::Tab => vk == 0x09,
        EnigoKey::Space => vk == 0x20,
        EnigoKey::CapsLock => vk == 0x14,
        EnigoKey::Delete => vk == 0x2E,
        EnigoKey::Home => vk == 0x24,
        EnigoKey::End => vk == 0x23,
        EnigoKey::PageUp => vk == 0x21,
        EnigoKey::PageDown => vk == 0x22,
        EnigoKey::UpArrow => vk == 0x26,
        EnigoKey::DownArrow => vk == 0x28,
        EnigoKey::LeftArrow => vk == 0x25,
        EnigoKey::RightArrow => vk == 0x27,
        EnigoKey::Control => vk == 0xA2 || vk == 0xA3,
        EnigoKey::Shift => vk == 0xA0 || vk == 0xA1,
        EnigoKey::Alt => vk == 0xA4 || vk == 0xA5,
        EnigoKey::Meta => vk == 0x5B || vk == 0x5C,
        EnigoKey::F1 => vk == 0x70,
        EnigoKey::F2 => vk == 0x71,
        EnigoKey::F3 => vk == 0x72,
        EnigoKey::F4 => vk == 0x73,
        EnigoKey::F5 => vk == 0x74,
        EnigoKey::F6 => vk == 0x75,
        EnigoKey::F7 => vk == 0x76,
        EnigoKey::F8 => vk == 0x77,
        EnigoKey::F9 => vk == 0x78,
        EnigoKey::F10 => vk == 0x79,
        EnigoKey::F11 => vk == 0x7A,
        EnigoKey::F12 => vk == 0x7B,
        EnigoKey::Unicode(_) => false,
    }
}

/// The two injection paths agree on named keys: a portable key that `enigo`
/// presses as a named key is injected on Windows with that key's virtual-key
/// code.
pub proof fn law_enigo_and_windows_press_the_same_key(k: Key)
    ensures
        enigo_key_of(k) matches Some(e) ==> (!(e is Unicode) ==> (named_vk(k) matches Some(
            (vk, _),
        ) && enigo_key_has_vk(e, vk))),
{
}

/// Map a portable key to `enigo`, or `None` when it has no equivalent.
pub fn to_enigo_key(key: Key) -> (r: Option<EnigoKey>)
    ensures
        r == enigo_key_of(key),
{
    match key {
        Key::A => Some(EnigoKey::Unicode('a')),
        Key::B => Some(EnigoKey::Unicode('b')),
        Key::C => Some(EnigoKey::Unicode('c')),
        Key::D => Some(EnigoKey::Unicode('d')),
        Key::E => Some(EnigoKey::Unicode('e')),
        Key::F => Some(EnigoKey::Unicode('f')),
        Key::G => Some(EnigoKey::Unicode('g')),
        Key::H => Some(EnigoKey::Unicode('h')),
        Key::I => Some(EnigoKey::Unicode('i')),
        Key::J => Some(EnigoKey::Unicode('j')),
        Key::K => Some(EnigoKey::Unicode('k')),
        Key::L => Some(EnigoKey::Unicode('l')),
        Key::M => Some(EnigoKey::Unicode('m')),
        Key::N => Some(EnigoKey::Unicode('n')),
        Key::O => Some(EnigoKey::Unicode('o')),
        Key::P => Some(EnigoKey::Unicode('p')),
        Key::Q => Some(EnigoKey::Unicode('q')),
        Key::R => Some(EnigoKey::Unicode('r')),
        Key::S => Some(EnigoKey::Unicode('s')),
        Key::T => Some(EnigoKey::Unicode('t')),
        Key::U => Some(EnigoKey::Unicode('u')),
        Key::V => Some(EnigoKey::Unicode('v')),
        Key::W => Some(EnigoKey::Unicode('w')),
        Key::X => Some(EnigoKey::Unicode('x')),
        Key::Y => Some(EnigoKey::Unicode('y')),
        Key::Z => Some(EnigoKey::Unicode('z')),
        Key::Num0 => Some(EnigoKey::Unicode('0')),
        Key::Num1 => Some(EnigoKey::Unicode('1')),
        Key::Num2 => Some(EnigoKey::Unicode('2')),
        Key::Num3 => Some(EnigoKey::Unicode('3')),
        Key::Num4 => Some(EnigoKey::Unicode('4')),
        Key::Num5 => Some(EnigoKey::Unicode('5')),
        Key::Num6 => Some(EnigoKey::Unicode('6')),
        Key::Num7 => Some(EnigoKey::Unicode('7')),
        Key::Num8 => Some(EnigoKey::Unicode('8')),
        Key::Num9 => Some(EnigoKey::Unicode('9')),
        Key::Minus => Some(EnigoKey::Unicode('-')),
        Key::Equal => Some(EnigoKey::Unicode('=')),
        Key::BracketLeft => Some(EnigoKey::Unicode('[')),
        Key::BracketRight => Some(EnigoKey::Unicode(']')),
        Key::Backslash => Some(EnigoKey::Unicode('\\')),
        Key::Semicolon => Some(EnigoKey::Unicode(';')),
        Key::Quote => Some(EnigoKey::Unicode('\'')),
        Key::Backquote => Some(EnigoKey::Unicode('`')),
        Key::Comma => Some(EnigoKey::Unicode(',')),
        Key::Period => Some(EnigoKey::Unicode('.')),
        Key::Slash => Some(EnigoKey::Unicode('/')),
        Key::Numpad0 => Some(EnigoKey::Unicode('0')),
        Key::Numpad1 => Some(EnigoKey::Unicode('1')),
        Key::Numpad2 => Some(EnigoKey::Unicode('2')),
        Key::Numpad3 => Some(EnigoKey::Unicode('3')),
        Key::Numpad4 => Some(EnigoKey::Unicode('4')),
        Key::Numpad5 => Some(EnigoKey::Unicode('5')),
        Key::Numpad6 => Some(EnigoKey::Unicode('6')),
        Key::Numpad7 => Some(EnigoKey::Unicode('7')),
        Key::Numpad8 => Some(EnigoKey::Unicode('8')),
        Key::Numpad9 => Some(EnigoKey::Unicode('9')),
        Key::NumpadAdd => Some(EnigoKey::Unicode('+')),
        Key::NumpadSubtract => Some(EnigoKey::Unicode('-')),
        Key::NumpadMultiply => Some(EnigoKey::Unicode('*')),
        Key::NumpadDivide => Some(EnigoKey::Unicode('/')),
        Key::NumpadDecimal => Some(EnigoKey::Unicode('.')),
        Key::NumpadEnter => Some(EnigoKey::Return),
        Key::Enter => Some(EnigoKey::Return),
        Key::Escape => Some(EnigoKey::Escape),
        Key::Backspace => Some(EnigoKey::Backspace),
        Key::Tab => Some(EnigoKey::Tab),
        Key::Space => Some(EnigoKey::Space),
        Key::CapsLock => Some(EnigoKey::CapsLock),
        Key::Delete => Some(EnigoKey::Delete),
        Key::Home => Some(EnigoKey::Home),
        Key::End => Some(EnigoKey::End),
        Key::PageUp => Some(EnigoKey::PageUp),
        Key::PageDown => Some(EnigoKey::PageDown),
        Key::ArrowUp => Some(EnigoKey::UpArrow),
        Key::ArrowDown => Some(EnigoKey::DownArrow),
        Key::ArrowLeft => Some(EnigoKey::LeftArrow),
        Key::ArrowRight => Some(EnigoKey::RightArrow),
        Key::ControlLeft => Some(EnigoKey::Control),
        Key::ControlRight => Some(EnigoKey::Control),
        Key::ShiftLeft => Some(EnigoKey::Shift),
        Key::ShiftRight => Some(EnigoKey::Shift),
        Key::AltLeft => Some(EnigoKey::Alt),
        Key::AltRight => Some(EnigoKey::Alt),
        Key::MetaLeft => Some(EnigoKey::Meta),
        Key::MetaRight => Some(EnigoKey::Meta),
        Key::F1 => Some(EnigoKey::F1),
        Key::F2 => Some(EnigoKey::F2),
        Key::F3 => Some(EnigoKey::F3),
        Key::F4 => Some(EnigoKey::F4),
        Key::F5 => Some(EnigoKey::F5),
        Key::F6 => Some(EnigoKey::F6),
        Key::F7 => Some(EnigoKey::F7),
        Key::F8 => Some(EnigoKey::F8),
        Key::F9 => Some(EnigoKey::F9),
        Key::F10 => Some(EnigoKey::F10),
        Key::F11 => Some(EnigoKey::F11),
        Key::F12 => Some(EnigoKey::F12),
        Key::Char(c) => Some(EnigoKey::Unicode(c)),
        _ => None,
    }
}

/// The `enigo` button of a portable mouse button (X1 is "back", X2 "forward").
pub open spec fn enigo_button_of(b: MouseButton) -> EnigoButton {
    match b {
        MouseButton::Left => EnigoButton::Left,
        MouseButton::Right => EnigoButton::Right,
        MouseButton::Middle => EnigoButton::Middle,
        MouseButton::X1 => EnigoButton::Back,
        MouseButton::X2 => EnigoButton::Forward,
    }
}

pub fn to_button(b: MouseButton) -> (r: EnigoButton)
    ensures
        r == enigo_button_of(b),
{
    match b {
        MouseButton::Left => EnigoButton::Left,
        MouseButton::Right => EnigoButton::Right,
        MouseButton::Middle => EnigoButton::Middle,
        MouseButton::X1 => EnigoButton::Back,
        MouseButton::X2 => EnigoButton::Forward,
    }
}

/// The `enigo` call that injects an event.
#[derive(Clone, Copy, Debug, PartialEq, Eq, Structural)]
pub enum EnigoAction {
    /// `move_mouse(dx, dy, Coordinate::Rel)`.
    MoveRel { dx: i32, dy: i32 },
    /// An absolute move to a normalized position (the `f32` bit patterns),
    /// scaled to the display by the caller.
    MoveAbsNorm { x_bits: u32, y_bits: u32 },
    /// `button(button, Press | Release)`.
    Button { button: EnigoButton, press: bool },
    /// `scroll(amount, Axis::Vertical | Axis::Horizontal)`.
    Scroll { amount: i32, vertical: bool },
    /// `key(key, Press | Release)`.
    Key { key: EnigoKey, press: bool },
    /// Nothing to inject (a key without an `enigo` equivalent).
    Skip,
}

/// The call for each event. A vertical wheel turn wins over a horizontal one
/// and is negated (`enigo` scrolls down for positive amounts, the wire format
/// up).
pub open spec fn enigo_action_of(ev: InputEvent) -> EnigoAction {
    match ev {
        InputEvent::MouseMove { dx, dy } => EnigoAction::MoveRel { dx, dy },
        InputEvent::MouseMoveAbs { x_bits, y_bits } => EnigoAction::MoveAbsNorm { x_bits, y_bits },
        InputEvent::MouseButton { button, pressed } => EnigoAction::Button {
            button: enigo_button_of(button),
            press: pressed,
        },
        InputEvent::MouseWheel { dx, dy } => if dy != 0 {
            EnigoAction::Scroll { amount: (-dy) as i32, vertical: true }
        } else {
            EnigoAction::Scroll { amount: dx, vertical: false }
        },
        InputEvent::Key { key, pressed } => match enigo_key_of(key) {
            Some(k) => EnigoAction::Key { key: k, press: pressed },
            None => EnigoAction::Skip,
        },
    }
}

/// Plan the `enigo` call for an event.
pub fn plan_enigo(ev: InputEvent) -> (r: EnigoAction)
    requires
        ev matches InputEvent::MouseWheel { dy, .. } ==> dy != i32::MIN,
    ensures
        r == enigo_action_of(ev),
{
    match ev {
        InputEvent::MouseMove { dx, dy } => EnigoAction::MoveRel { dx, dy },
        InputEvent::MouseMoveAbs { x_bits, y_bits } => EnigoAction::MoveAbsNorm { x_bits, y_bits },
        InputEvent::MouseButton { button, pressed } => EnigoAction::Button {
            button: to_button(button),
            press: pressed,
        },
        InputEvent::MouseWheel { dx, dy } => {
            if dy != 0 {
                EnigoAction::Scroll { amount: -dy, vertical: true }
            } else {
                EnigoAction::Scroll { amount: dx, vertical: false }
            }
        },
        InputEvent::Key { key, pressed } => match to_enigo_key(key) {
            Some(k) => EnigoAction::Key { key: k, press: pressed },
            None => EnigoAction::Skip,
        },
    }
}

} // verus!
