//! Host-side input decisions: the snap-home chord, modifier tracking and where
//! to park the local cursor while control is on the remote.

use vstd::prelude::*;
use crate::edge::Rect;
use crate::protocol::{Key, ScreenEdge};

verus! {

/// Which Ctrl and Alt keys are held, each hand on its own.
pub ghost struct Modifiers {
    pub ctrl_left: bool,
    pub ctrl_right: bool,
    pub alt_left: bool,
    pub alt_right: bool,
}

impl Modifiers {
    /// Nothing held.
    pub open spec fn none() -> Modifiers {
        Modifiers { ctrl_left: false, ctrl_right: false, alt_left: false, alt_right: false }
    }

    /// Whether either Ctrl key is held.
    pub open spec fn ctrl(self) -> bool {
        self.ctrl_left || self.ctrl_right
    }

    /// Whether either Alt key is held.
    pub open spec fn alt(self) -> bool {
        self.alt_left || self.alt_right
    }
}

/// The held Ctrl and Alt keys after `key` goes down (`pressed`) or up.
pub open spec fn modifiers_after(m: Modifiers, key: Key, pressed: bool) -> Modifiers {
    Modifiers {
        ctrl_left: if key == Key::ControlLeft { pressed } else { m.ctrl_left },
        ctrl_right: if key == Key::ControlRight { pressed } else { m.ctrl_right },
        alt_left: if key == Key::AltLeft { pressed } else { m.alt_left },
        alt_right: if key == Key::AltRight { pressed } else { m.alt_right },
    }
}

/// Whether `key` going down (`pressed`) with `m` held completes Ctrl+Alt+Home.
pub open spec fn chord_fires(m: Modifiers, key: Key, pressed: bool) -> bool {
    key == Key::Home && pressed && m.ctrl() && m.alt()
}

/// Tracks modifier state to detect the snap-home chord (Ctrl+Alt+Home) using
/// the portable key model, so it works on any OS. Each Ctrl and Alt key is
/// tracked on its own, so releasing one hand's key leaves the other held.
#[derive(Clone, Copy, Debug, PartialEq, Eq, Structural)]
pub struct HotkeyDetector {
    ctrl_left: bool,
    ctrl_right: bool,
    alt_left: bool,
    alt_right: bool,
}

impl HotkeyDetector {
    /// The Ctrl and Alt keys held.
    pub closed spec fn modifiers(&self) -> Modifiers {
        Modifiers {
            ctrl_left: self.ctrl_left,
            ctrl_right: self.ctrl_right,
            alt_left: self.alt_left,
            alt_right: self.alt_right,
        }
    }

    /// Whether a Ctrl key is held.
    pub open spec fn ctrl_held(&self) -> bool {
        self.modifiers().ctrl()
    }

    /// Whether an Alt key is held.
    pub open spec fn alt_held(&self) -> bool {
        self.modifiers().alt()
    }

    /// Nothing held.
    pub fn new() -> (h: Self)
        ensures
            h.modifiers() == Modifiers::none(),
    {
        HotkeyDetector { ctrl_left: false, ctrl_right: false, alt_left: false, alt_right: false }
    }

    /// Feed a key event; returns `true` when Ctrl+Alt+Home has just been pressed.
    pub fn on_key(&mut self, key: Key, pressed: bool) -> (fired: bool)
        ensures
            fired == chord_fires(old(self).modifiers(), key, pressed),
            final(self).modifiers() == modifiers_after(old(self).modifiers(), key, pressed),
    {
        match key {
            Key::ControlLeft => {
                self.ctrl_left = pressed;
                false
            },
            Key::ControlRight => {
                self.ctrl_right = pressed;
                false
            },
            Key::AltLeft => {
                self.alt_left = pressed;
                false
            },
            Key::AltRight => {
                self.alt_right = pressed;
                false
            },
            Key::Home => pressed && (self.ctrl_left || self.ctrl_right) && (self.alt_left
                || self.alt_right),
            _ => false,
        }
    }
}

impl Default for HotkeyDetector {
    /// Nothing held.
    fn default() -> (h: Self)
        ensures
            h.modifiers() == Modifiers::none(),
    {
        HotkeyDetector::new()
    }
}

/// Ctrl, Alt, Shift and Meta keys, either hand.
pub open spec fn modifier(k: Key) -> bool {
    ||| k == Key::ControlLeft
    ||| k == Key::ControlRight
    ||| k == Key::AltLeft
    ||| k == Key::AltRight
    ||| k == Key::ShiftLeft
    ||| k == Key::ShiftRight
    ||| k == Key::MetaLeft
    ||| k == Key::MetaRight
}

pub fn is_modifier(k: Key) -> (r: bool)
    ensures
        r == modifier(k),
{
    match k {
        Key::ControlLeft | Key::ControlRight | Key::AltLeft | Key::AltRight | Key::ShiftLeft
        | Key::ShiftRight | Key::MetaLeft | Key::MetaRight => true,
        _ => false,
    }
}

/// How far back from the crossed edge the local cursor is parked.
pub const PARK_BUFFER: i32 = 200;

/// `v` clamped to `lo..=hi` when that range is non-empty, else unchanged.
pub open spec fn clamp_if(v: int, lo: int, hi: int) -> int {
    if hi > lo {
        if v < lo {
            lo
        } else if v > hi {
            hi
        } else {
            v
        }
    } else {
        v
    }
}

/// Where `park_position` puts the cursor: backed off from the crossed edge by
/// `PARK_BUFFER`, then clamped `PARK_BUFFER` inside the desktop on each axis
/// where the desktop is large enough.
pub open spec fn park_spec(edge: ScreenEdge, abs_x: int, abs_y: int, d: Rect) -> (int, int) {
    let (px, py) = match edge {
        ScreenEdge::Right => (abs_x - 200, abs_y),
        ScreenEdge::Left => (abs_x + 200, abs_y),
        ScreenEdge::Bottom => (abs_x, abs_y - 200),
        ScreenEdge::Top => (abs_x, abs_y + 200),
    };
    (
        clamp_if(px, d.x + 200, d.x + d.w - 1 - 200),
        clamp_if(py, d.y + 200, d.y + d.h - 1 - 200),
    )
}

/// Whether every intermediate of `park_position` fits in an `i32`.
pub open spec fn parking_fits(abs_x: int, abs_y: int, d: Rect) -> bool {
    &&& i32::MIN + 200 <= abs_x <= i32::MAX - 200
    &&& i32::MIN + 200 <= abs_y <= i32::MAX - 200
    &&& d.x + 200 <= i32::MAX && d.y + 200 <= i32::MAX
    &&& i32::MIN <= d.x + d.w <= i32::MAX && i32::MIN <= d.x + d.w - 1 - 200
    &&& i32::MIN <= d.y + d.h <= i32::MAX && i32::MIN <= d.y + d.h - 1 - 200
}

/// Whether `park_position` can be asked for this cursor pixel and desktop.
pub fn park_fits(abs_x: i32, abs_y: i32, d: Rect) -> (r: bool)
    ensures
        r == parking_fits(abs_x as int, abs_y as int, d),
{
    let b: i64 = 200;
    let x: i64 = abs_x as i64;
    let y: i64 = abs_y as i64;
    let dx: i64 = d.x as i64;
    let dy: i64 = d.y as i64;
    let dw: i64 = d.w as i64;
    let dh: i64 = d.h as i64;
    let min: i64 = i32::MIN as i64;
    let max: i64 = i32::MAX as i64;
    min + b <= x && x <= max - b && min + b <= y && y <= max - b && dx + b <= max && dy + b <= max
        && min <= dx + dw && dx + dw <= max && min <= dx + dw - 1 - b && min <= dy + dh && dy + dh
        <= max && min <= dy + dh - 1 - b
}

/// Choose where to park the physical cursor while control is on the remote: a
/// point backed off from the crossed edge and kept well inside the desktop, so
/// the cursor has room to move in every direction.
pub fn park_position(edge: ScreenEdge, abs_x: i32, abs_y: i32, desktop: Rect) -> (r: (i32, i32))
    requires
        parking_fits(abs_x as int, abs_y as int, desktop),
    ensures
        (r.0 as int, r.1 as int) == park_spec(edge, abs_x as int, abs_y as int, desktop),
{
    let (mut px, mut py) = match edge {
        ScreenEdge::Right => (abs_x - PARK_BUFFER, abs_y),
        ScreenEdge::Left => (abs_x + PARK_BUFFER, abs_y),
        ScreenEdge::Bottom => (abs_x, abs_y - PARK_BUFFER),
        ScreenEdge::Top => (abs_x, abs_y + PARK_BUFFER),
    };
    let min_x = desktop.x + PARK_BUFFER;
    let max_x = desktop.x + desktop.w - 1 - PARK_BUFFER;
    let min_y = desktop.y + PARK_BUFFER;
    let max_y = desktop.y + desktop.h - 1 - PARK_BUFFER;
    if max_x > min_x {
        px = if px < min_x { min_x } else if px > max_x { max_x } else { px };
    }
    if max_y > min_y {
        py = if py < min_y { min_y } else if py > max_y { max_y } else { py };
    }
    (px, py)
}

} // verus!
