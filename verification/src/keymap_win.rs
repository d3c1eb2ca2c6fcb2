//! Mapping between the portable [`Key`] model and Windows virtual-key codes.
//!
//! `Key` names physical positions (US layout), so this table is what makes a key
//! pressed on any OS land on the right Windows key and vice versa.

use vstd::prelude::*;
use crate::protocol::Key;

verus! {

/// How to inject a [`Key`] on Windows.
#[derive(Clone, Copy, Debug, PartialEq, Eq, Structural)]
pub enum VkMapping {
    /// A virtual-key code and whether it needs the extended-key flag.
    Vk(u16, bool),
    /// Type a literal character via the Unicode injection path.
    Unicode(char),
}

/// A key with a positional name (not a `Char` or `Raw` fallback).
pub open spec fn is_named(k: Key) -> bool {
    !(k is Char) && !(k is Raw)
}

/// The virtual-key code and extended flag of each named key.
pub open spec fn named_vk(k: Key) -> Option<(u16, bool)> {
    match k {
        Key::A => Some((0x41, false)),
        Key::B => Some((0x42, false)),
        Key::C => Some((0x43, false)),
        Key::D => Some((0x44, false)),
        Key::E => Some((0x45, false)),
        Key::F => Some((0x46, false)),
        Key::G => Some((0x47, false)),
        Key::H => Some((0x48, false)),
        Key::I => Some((0x49, false)),
        Key::J => Some((0x4A, false)),
        Key::K => Some((0x4B, false)),
        Key::L => Some((0x4C, false)),
        Key::M => Some((0x4D, false)),
        Key::N => Some((0x4E, false)),
        Key::O => Some((0x4F, false)),
        Key::P => Some((0x50, false)),
        Key::Q => Some((0x51, false)),
        Key::R => Some((0x52, false)),
        Key::S => Some((0x53, false)),
        Key::T => Some((0x54, false)),
        Key::U => Some((0x55, false)),
        Key::V => Some((0x56, false)),
        Key::W => Some((0x57, false)),
        Key::X => Some((0x58, false)),
        Key::Y => Some((0x59, false)),
        Key::Z => Some((0x5A, false)),
        Key::Num0 => Some((0x30, false)),
        Key::Num1 => Some((0x31, false)),
        Key::Num2 => Some((0x32, false)),
        Key::Num3 => Some((0x33, false)),
        Key::Num4 => Some((0x34, false)),
        Key::Num5 => Some((0x35, false)),
        Key::Num6 => Some((0x36, false)),
        Key::Num7 => Some((0x37, false)),
        Key::Num8 => Some((0x38, false)),
        Key::Num9 => Some((0x39, false)),
        Key::F1 => Some((0x70, false)),
        Key::F2 => Some((0x71, false)),
        Key::F3 => Some((0x72, false)),
        Key::F4 => Some((0x73, false)),
        Key::F5 => Some((0x74, false)),
        Key::F6 => Some((0x75, false)),
        Key::F7 => Some((0x76, false)),
        Key::F8 => Some((0x77, false)),
        Key::F9 => Some((0x78, false)),
        Key::F10 => Some((0x79, false)),
        Key::F11 => Some((0x7A, false)),
        Key::F12 => Some((0x7B, false)),
        Key::ControlLeft => Some((0xA2, false)),
        Key::ControlRight => Some((0xA3, true)),
        Key::ShiftLeft => Some((0xA0, false)),
        Key::ShiftRight => Some((0xA1, false)),
        Key::AltLeft => Some((0xA4, false)),
        Key::AltRight => Some((0xA5, true)),
        Key::MetaLeft => Some((0x5B, true)),
        Key::MetaRight => Some((0x5C, true)),
        Key::Enter => Some((0x0D, false)),
        Key::Escape => Some((0x1B, false)),
        Key::Backspace => Some((0x08, false)),
        Key::Tab => Some((0x09, false)),
        Key::Space => Some((0x20, false)),
        Key::CapsLock => Some((0x14, false)),
        Key::Insert => Some((0x2D, true)),
        Key::Delete => Some((0x2E, true)),
        Key::Home => Some((0x24, true)),
        Key::End => Some((0x23, true)),
        Key::PageUp => Some((0x21, true)),
        Key::PageDown => Some((0x22, true)),
        Key::ArrowUp => Some((0x26, true)),
        Key::ArrowDown => Some((0x28, true)),
        Key::ArrowLeft => Some((0x25, true)),
        Key::ArrowRight => Some((0x27, true)),
        Key::Minus => Some((0xBD, false)),
        Key::Equal => Some((0xBB, false)),
        Key::BracketLeft => Some((0xDB, false)),
        Key::BracketRight => Some((0xDD, false)),
        Key::Backslash => Some((0xDC, false)),
        Key::Semicolon => Some((0xBA, false)),
        Key::Quote => Some((0xDE, false)),
        Key::Backquote => Some((0xC0, false)),
        Key::Comma => Some((0xBC, false)),
        Key::Period => Some((0xBE, false)),
        Key::Slash => Some((0xBF, false)),
        Key::Numpad0 => Some((0x60, false)),
        Key::Numpad1 => Some((0x61, false)),
        Key::Numpad2 => Some((0x62, false)),
        Key::Numpad3 => Some((0x63, false)),
        Key::Numpad4 => Some((0x64, false)),
        Key::Numpad5 => Some((0x65, false)),
        Key::Numpad6 => Some((0x66, false)),
        Key::Numpad7 => Some((0x67, false)),
        Key::Numpad8 => Some((0x68, false)),
        Key::Numpad9 => Some((0x69, false)),
        Key::NumpadAdd => Some((0x6B, false)),
        Key::NumpadSubtract => Some((0x6D, false)),
        Key::NumpadMultiply => Some((0x6A, false)),
        Key::NumpadDivide => Some((0x6F, true)),
        Key::NumpadDecimal => Some((0x6E, false)),
        Key::NumpadEnter => Some((0x0D, true)),
        Key::PrintScreen => Some((0x2C, false)),
        Key::ScrollLock => Some((0x91, false)),
        Key::Pause => Some((0x13, false)),
        Key::NumLock => Some((0x90, true)),
        Key::ContextMenu => Some((0x5D, true)),
        _ => None,
    }
}

/// How `vk_for` injects a key.
pub open spec fn vk_mapping(k: Key) -> VkMapping {
    match k {
        Key::Char(c) => VkMapping::Unicode(c),
        Key::Raw(n) => VkMapping::Vk(n as u16, false),
        _ => VkMapping::Vk(named_vk(k).unwrap().0, named_vk(k).unwrap().1),
    }
}

/// The generic (left/right-agnostic) modifier codes `VK_SHIFT`, `VK_CONTROL`
/// and `VK_MENU`, which hooks may report; they read as the left-hand key.
pub open spec fn generic_modifier(vk: u16) -> Option<Key> {
    if vk == 0x10 {
        Some(Key::ShiftLeft)
    } else if vk == 0x11 {
        Some(Key::ControlLeft)
    } else if vk == 0x12 {
        Some(Key::AltLeft)
    } else {
        None
    }
}

/// `r` is how a hook's `(vk, extended)` reads: a generic modifier reads as its
/// left-hand key; otherwise the named key with that code (for the one code two
/// keys share, `VK_RETURN`, the one with that extended flag); a code no named
/// key has reads as `Raw`.
pub open spec fn reads_as(vk: u16, extended: bool, r: Key) -> bool {
    match generic_modifier(vk) {
        Some(m) => r == m,
        None => if r is Raw {
            &&& r == Key::Raw(vk as u32)
            &&& forall|k: Key| #[trigger] named_vk(k) is Some ==> named_vk(k).unwrap().0 != vk
        } else {
            &&& named_vk(r) is Some
            &&& named_vk(r).unwrap().0 == vk
            &&& vk == 0x0D ==> named_vk(r).unwrap().1 == extended
        },
    }
}

/// Map a portable key to its Windows injection form.
pub fn vk_for(key: Key) -> (m: VkMapping)
    ensures
        m == vk_mapping(key),
{
    let (vk, ext): (u16, bool) = match key {
            Key::A => (0x41, false),
            Key::B => (0x42, false),
            Key::C => (0x43, false),
            Key::D => (0x44, false),
            Key::E => (0x45, false),
            Key::F => (0x46, false),
            Key::G => (0x47, false),
            Key::H => (0x48, false),
            Key::I => (0x49, false),
            Key::J => (0x4A, false),
            Key::K => (0x4B, false),
            Key::L => (0x4C, false),
            Key::M => (0x4D, false),
            Key::N => (0x4E, false),
            Key::O => (0x4F, false),
            Key::P => (0x50, false),
            Key::Q => (0x51, false),
            Key::R => (0x52, false),
            Key::S => (0x53, false),
            Key::T => (0x54, false),
            Key::U => (0x55, false),
            Key::V => (0x56, false),
            Key::W => (0x57, false),
            Key::X => (0x58, false),
            Key::Y => (0x59, false),
            Key::Z => (0x5A, false),
            Key::Num0 => (0x30, false),
            Key::Num1 => (0x31, false),
            Key::Num2 => (0x32, false),
            Key::Num3 => (0x33, false),
            Key::Num4 => (0x34, false),
            Key::Num5 => (0x35, false),
            Key::Num6 => (0x36, false),
            Key::Num7 => (0x37, false),
            Key::Num8 => (0x38, false),
            Key::Num9 => (0x39, false),
            Key::F1 => (0x70, false),
            Key::F2 => (0x71, false),
            Key::F3 => (0x72, false),
            Key::F4 => (0x73, false),
            Key::F5 => (0x74, false),
            Key::F6 => (0x75, false),
            Key::F7 => (0x76, false),
            Key::F8 => (0x77, false),
            Key::F9 => (0x78, false),
            Key::F10 => (0x79, false),
            Key::F11 => (0x7A, false),
            Key::F12 => (0x7B, false),
            Key::ControlLeft => (0xA2, false),
            Key::ControlRight => (0xA3, true),
            Key::ShiftLeft => (0xA0, false),
            Key::ShiftRight => (0xA1, false),
            Key::AltLeft => (0xA4, false),
            Key::AltRight => (0xA5, true),
            Key::MetaLeft => (0x5B, true),
            Key::MetaRight => (0x5C, true),
            Key::Enter => (0x0D, false),
            Key::Escape => (0x1B, false),
            Key::Backspace => (0x08, false),
            Key::Tab => (0x09, false),
            Key::Space => (0x20, false),
            Key::CapsLock => (0x14, false),
            Key::Insert => (0x2D, true),
            Key::Delete => (0x2E, true),
            Key::Home => (0x24, true),
            Key::End => (0x23, true),
            Key::PageUp => (0x21, true),
            Key::PageDown => (0x22, true),
            Key::ArrowUp => (0x26, true),
            Key::ArrowDown => (0x28, true),
            Key::ArrowLeft => (0x25, true),
            Key::ArrowRight => (0x27, true),
            Key::Minus => (0xBD, false),
            Key::Equal => (0xBB, false),
            Key::BracketLeft => (0xDB, false),
            Key::BracketRight => (0xDD, false),
            Key::Backslash => (0xDC, false),
            Key::Semicolon => (0xBA, false),
            Key::Quote => (0xDE, false),
            Key::Backquote => (0xC0, false),
            Key::Comma => (0xBC, false),
            Key::Period => (0xBE, false),
            Key::Slash => (0xBF, false),
            Key::Numpad0 => (0x60, false),
            Key::Numpad1 => (0x61, false),
            Key::Numpad2 => (0x62, false),
            Key::Numpad3 => (0x63, false),
            Key::Numpad4 => (0x64, false),
            Key::Numpad5 => (0x65, false),
            Key::Numpad6 => (0x66, false),
            Key::Numpad7 => (0x67, false),
            Key::Numpad8 => (0x68, false),
            Key::Numpad9 => (0x69, false),
            Key::NumpadAdd => (0x6B, false),
            Key::NumpadSubtract => (0x6D, false),
            Key::NumpadMultiply => (0x6A, false),
            Key::NumpadDivide => (0x6F, true),
            Key::NumpadDecimal => (0x6E, false),
            Key::NumpadEnter => (0x0D, true),
            Key::PrintScreen => (0x2C, false),
            Key::ScrollLock => (0x91, false),
            Key::Pause => (0x13, false),
            Key::NumLock => (0x90, true),
            Key::ContextMenu => (0x5D, true),
        Key::Char(c) => return VkMapping::Unicode(c),
        Key::Raw(n) => (n as u16, false),
    };
    VkMapping::Vk(vk, ext)
}

/// Map a Windows virtual-key code (from a hook) to a portable key.
pub fn key_for_vk(vk: u16, extended: bool) -> (k: Key)
    ensures
        reads_as(vk, extended, k),
{
    match vk {
        0x41 => Key::A,
        0x42 => Key::B,
        0x43 => Key::C,
        0x44 => Key::D,
        0x45 => Key::E,
        0x46 => Key::F,
        0x47 => Key::G,
        0x48 => Key::H,
        0x49 => Key::I,
        0x4A => Key::J,
        0x4B => Key::K,
        0x4C => Key::L,
        0x4D => Key::M,
        0x4E => Key::N,
        0x4F => Key::O,
        0x50 => Key::P,
        0x51 => Key::Q,
        0x52 => Key::R,
        0x53 => Key::S,
        0x54 => Key::T,
        0x55 => Key::U,
        0x56 => Key::V,
        0x57 => Key::W,
        0x58 => Key::X,
        0x59 => Key::Y,
        0x5A => Key::Z,
        0x30 => Key::Num0,
        0x31 => Key::Num1,
        0x32 => Key::Num2,
        0x33 => Key::Num3,
        0x34 => Key::Num4,
        0x35 => Key::Num5,
        0x36 => Key::Num6,
        0x37 => Key::Num7,
        0x38 => Key::Num8,
        0x39 => Key::Num9,
        0x70 => Key::F1,
        0x71 => Key::F2,
        0x72 => Key::F3,
        0x73 => Key::F4,
        0x74 => Key::F5,
        0x75 => Key::F6,
        0x76 => Key::F7,
        0x77 => Key::F8,
        0x78 => Key::F9,
        0x79 => Key::F10,
        0x7A => Key::F11,
        0x7B => Key::F12,
        0x11 | 0xA2 => Key::ControlLeft,
        0xA3 => Key::ControlRight,
        0x10 | 0xA0 => Key::ShiftLeft,
        0xA1 => Key::ShiftRight,
        0x12 | 0xA4 => Key::AltLeft,
        0xA5 => Key::AltRight,
        0x5B => Key::MetaLeft,
        0x5C => Key::MetaRight,
        0x0D => {
            if extended {
                Key::NumpadEnter
            } else {
                Key::Enter
            }
        }
        0x1B => Key::Escape,
        0x08 => Key::Backspace,
        0x09 => Key::Tab,
        0x20 => Key::Space,
        0x14 => Key::CapsLock,
        0x2D => Key::Insert,
        0x2E => Key::Delete,
        0x24 => Key::Home,
        0x23 => Key::End,
        0x21 => Key::PageUp,
        0x22 => Key::PageDown,
        0x26 => Key::ArrowUp,
        0x28 => Key::ArrowDown,
        0x25 => Key::ArrowLeft,
        0x27 => Key::ArrowRight,
        0xBD => Key::Minus,
        0xBB => Key::Equal,
        0xDB => Key::BracketLeft,
        0xDD => Key::BracketRight,
        0xDC => Key::Backslash,
        0xBA => Key::Semicolon,
        0xDE => Key::Quote,
        0xC0 => Key::Backquote,
        0xBC => Key::Comma,
        0xBE => Key::Period,
        0xBF => Key::Slash,
        0x60 => Key::Numpad0,
        0x61 => Key::Numpad1,
        0x62 => Key::Numpad2,
        0x63 => Key::Numpad3,
        0x64 => Key::Numpad4,
        0x65 => Key::Numpad5,
        0x66 => Key::Numpad6,
        0x67 => Key::Numpad7,
        0x68 => Key::Numpad8,
        0x69 => Key::Numpad9,
        0x6B => Key::NumpadAdd,
        0x6D => Key::NumpadSubtract,
        0x6A => Key::NumpadMultiply,
        0x6F => Key::NumpadDivide,
        0x6E => Key::NumpadDecimal,
        0x2C => Key::PrintScreen,
        0x91 => Key::ScrollLock,
        0x13 => Key::Pause,
        0x90 => Key::NumLock,
        0x5D => Key::ContextMenu,
                other => Key::Raw(other as u32),
    }
}

/// Every named key survives the trip to a virtual-key code and back.
pub proof fn law_named_keys_roundtrip(k: Key, r: Key)
    requires
        is_named(k),
        vk_mapping(k) matches VkMapping::Vk(vk, ext) && reads_as(vk, ext, r),
    ensures
        r == k,
{
}

} // verus!
