//! The decisions of the Windows input backend, separated from the Win32 calls:
//! how low-level hook and Raw Input messages become portable events (and
//! whether the local system still sees them), and how portable events become
//! `SendInput` records. The numeric message and flag values are Win32's.

use vstd::prelude::*;
use crate::input::CapturedEvent;
use crate::keymap_win::{key_for_vk, reads_as, vk_for, vk_mapping, VkMapping};
use crate::protocol::{InputEvent, Key, MouseButton};

verus! {

pub const WM_KEYDOWN: u32 = 0x0100;
pub const WM_KEYUP: u32 = 0x0101;
pub const WM_SYSKEYDOWN: u32 = 0x0104;
pub const WM_SYSKEYUP: u32 = 0x0105;
pub const WM_MOUSEMOVE: u32 = 0x0200;
pub const WM_LBUTTONDOWN: u32 = 0x0201;
pub const WM_LBUTTONUP: u32 = 0x0202;
pub const WM_RBUTTONDOWN: u32 = 0x0204;
pub const WM_RBUTTONUP: u32 = 0x0205;
pub const WM_MBUTTONDOWN: u32 = 0x0207;
pub const WM_MBUTTONUP: u32 = 0x0208;
pub const WM_MOUSEWHEEL: u32 = 0x020A;
pub const WM_XBUTTONDOWN: u32 = 0x020B;
pub const WM_XBUTTONUP: u32 = 0x020C;
pub const WM_MOUSEHWHEEL: u32 = 0x020E;

pub const MOUSEEVENTF_MOVE: u32 = 0x0001;
pub const MOUSEEVENTF_LEFTDOWN: u32 = 0x0002;
pub const MOUSEEVENTF_LEFTUP: u32 = 0x0004;
pub const MOUSEEVENTF_RIGHTDOWN: u32 = 0x0008;
pub const MOUSEEVENTF_RIGHTUP: u32 = 0x0010;
pub const MOUSEEVENTF_MIDDLEDOWN: u32 = 0x0020;
pub const MOUSEEVENTF_MIDDLEUP: u32 = 0x0040;
pub const MOUSEEVENTF_XDOWN: u32 = 0x0080;
pub const MOUSEEVENTF_XUP: u32 = 0x0100;
pub const MOUSEEVENTF_WHEEL: u32 = 0x0800;
pub const MOUSEEVENTF_HWHEEL: u32 = 0x1000;

pub const KEYEVENTF_EXTENDEDKEY: u32 = 0x0001;
pub const KEYEVENTF_KEYUP: u32 = 0x0002;
pub const KEYEVENTF_UNICODE: u32 = 0x0004;

pub const XBUTTON1: u32 = 0x0001;
pub const XBUTTON2: u32 = 0x0002;

/// Tag put in `dwExtraInfo` of injected events so the capture hooks recognize
/// and ignore them (prevents feedback loops when a device both captures and
/// injects).
pub const INJECT_SIGNATURE: usize = 0x5C11_5C11;

/// The value of a 16-bit field read as a signed (two's complement) number.
pub open spec fn signed16(v: u16) -> i32 {
    if v < 0x8000 {
        v as i32
    } else {
        (v - 0x1_0000) as i32
    }
}

fn to_signed16(v: u16) -> (r: i32)
    ensures
        r == signed16(v),
{
    if v < 0x8000 {
        v as i32
    } else {
        v as i32 - 0x1_0000
    }
}

/// The extra mouse button a hook's X-button message names: 2 is X2, any
/// other value X1.
pub fn xbutton(high: u16) -> (b: MouseButton)
    ensures
        b == (if high == 2 {
            MouseButton::X2
        } else {
            MouseButton::X1
        }),
{
    if high == 2 {
        MouseButton::X2
    } else {
        MouseButton::X1
    }
}

/// The high word of a low-level mouse hook's `mouseData`.
pub open spec fn high_word(mouse_data: u32) -> u16 {
    (mouse_data / 0x1_0000) as u16
}

/// The portable event of a low-level hook's button or wheel message. The wheel
/// messages are left to Raw Input when it is active (so a wheel notch is not
/// reported twice).
pub open spec fn hook_button_event(msg: u32, mouse_data: u32, raw_input_active: bool) -> Option<
    InputEvent,
> {
    let high = high_word(mouse_data);
    if msg == WM_LBUTTONDOWN {
        Some(InputEvent::MouseButton { button: MouseButton::Left, pressed: true })
    } else if msg == WM_LBUTTONUP {
        Some(InputEvent::MouseButton { button: MouseButton::Left, pressed: false })
    } else if msg == WM_RBUTTONDOWN {
        Some(InputEvent::MouseButton { button: MouseButton::Right, pressed: true })
    } else if msg == WM_RBUTTONUP {
        Some(InputEvent::MouseButton { button: MouseButton::Right, pressed: false })
    } else if msg == WM_MBUTTONDOWN {
        Some(InputEvent::MouseButton { button: MouseButton::Middle, pressed: true })
    } else if msg == WM_MBUTTONUP {
        Some(InputEvent::MouseButton { button: MouseButton::Middle, pressed: false })
    } else if msg == WM_XBUTTONDOWN {
        Some(
            InputEvent::MouseButton {
                button: if high == 2 {
                    MouseButton::X2
                } else {
                    MouseButton::X1
                },
                pressed: true,
            },
        )
    } else if msg == WM_XBUTTONUP {
        Some(
            InputEvent::MouseButton {
                button: if high == 2 {
                    MouseButton::X2
                } else {
                    MouseButton::X1
                },
                pressed: false,
            },
        )
    } else if msg == WM_MOUSEWHEEL && !raw_input_active {
        Some(InputEvent::MouseWheel { dx: 0, dy: signed16(high) })
    } else if msg == WM_MOUSEHWHEEL && !raw_input_active {
        Some(InputEvent::MouseWheel { dx: signed16(high), dy: 0 })
    } else {
        None
    }
}

/// The button and wheel messages the hook swallows while control is remote.
pub open spec fn is_button_or_wheel(msg: u32) -> bool {
    msg == WM_LBUTTONDOWN || msg == WM_LBUTTONUP || msg == WM_RBUTTONDOWN || msg == WM_RBUTTONUP
        || msg == WM_MBUTTONDOWN || msg == WM_MBUTTONUP || msg == WM_XBUTTONDOWN || msg
        == WM_XBUTTONUP || msg == WM_MOUSEWHEEL || msg == WM_MOUSEHWHEEL
}

/// Decode a low-level hook's button or wheel message.
pub fn mouse_button_or_wheel(msg: u32, mouse_data: u32, raw_input_active: bool) -> (r: Option<
    InputEvent,
>)
    ensures
        r == hook_button_event(msg, mouse_data, raw_input_active),
{
    let high = (mouse_data / 0x1_0000) as u16;
    if msg == WM_LBUTTONDOWN {
        Some(InputEvent::MouseButton { button: MouseButton::Left, pressed: true })
    } else if msg == WM_LBUTTONUP {
        Some(InputEvent::MouseButton { button: MouseButton::Left, pressed: false })
    } else if msg == WM_RBUTTONDOWN {
        Some(InputEvent::MouseButton { button: MouseButton::Right, pressed: true })
    } else if msg == WM_RBUTTONUP {
        Some(InputEvent::MouseButton { button: MouseButton::Right, pressed: false })
    } else if msg == WM_MBUTTONDOWN {
        Some(InputEvent::MouseButton { button: MouseButton::Middle, pressed: true })
    } else if msg == WM_MBUTTONUP {
        Some(InputEvent::MouseButton { button: MouseButton::Middle, pressed: false })
    } else if msg == WM_XBUTTONDOWN {
        Some(InputEvent::MouseButton { button: xbutton(high), pressed: true })
    } else if msg == WM_XBUTTONUP {
        Some(InputEvent::MouseButton { button: xbutton(high), pressed: false })
    } else if msg == WM_MOUSEWHEEL && !raw_input_active {
        Some(InputEvent::MouseWheel { dx: 0, dy: to_signed16(high) })
    } else if msg == WM_MOUSEHWHEEL && !raw_input_active {
        Some(InputEvent::MouseWheel { dx: to_signed16(high), dy: 0 })
    } else {
        None
    }
}

/// What the low-level mouse hook does with a message: the event to report (if
/// any), and whether to swallow it so the local system never sees it.
pub struct HookVerdict {
    pub event: Option<CapturedEvent>,
    pub eat: bool,
}

/// The mouse hook's handling of a button or wheel message: report its event;
/// swallow it while control is remote.
pub fn on_hook_button(msg: u32, mouse_data: u32, extra_info: usize, suppress: bool, raw_input_active: bool) -> (r:
    HookVerdict)
    ensures
        extra_info == INJECT_SIGNATURE ==> r.event is None && !r.eat,
        extra_info != INJECT_SIGNATURE ==> {
            &&& r.event == (match hook_button_event(msg, mouse_data, raw_input_active) {
                Some(ev) => Some(CapturedEvent::Input(ev)),
                None => None,
            })
            &&& r.eat == (suppress && is_button_or_wheel(msg))
        },
{
    if extra_info == INJECT_SIGNATURE {
        return HookVerdict { event: None, eat: false };
    }
    let event = match mouse_button_or_wheel(msg, mouse_data, raw_input_active) {
        Some(ev) => Some(CapturedEvent::Input(ev)),
        None => None,
    };
    let eat = suppress && (msg == WM_LBUTTONDOWN || msg == WM_LBUTTONUP || msg == WM_RBUTTONDOWN
        || msg == WM_RBUTTONUP || msg == WM_MBUTTONDOWN || msg == WM_MBUTTONUP || msg
        == WM_XBUTTONDOWN || msg == WM_XBUTTONUP || msg == WM_MOUSEWHEEL || msg == WM_MOUSEHWHEEL);
    HookVerdict { event, eat }
}

/// The mouse hook's handling of a cursor move to `(x, y)`.
pub struct MoveVerdict {
    /// The motion to report, if any.
    pub event: Option<CapturedEvent>,
    /// The position the next delta is measured from.
    pub last: (i32, i32),
    /// Where to put the cursor back, when it drifted from the park position.
    pub snap_to: Option<(i32, i32)>,
    /// Swallow the move so the local cursor does not follow it.
    pub eat: bool,
}

/// Handle a cursor move seen by the low-level hook. Our own injected moves
/// (`extra_info` is `INJECT_SIGNATURE`) pass through untouched, leaving the last
/// position as it was. Otherwise deltas are measured from the last position.
/// While control is local every move is reported (for edge detection); while it
/// is remote, Raw Input reports the deltas, so the hook reports only when Raw
/// Input is not running, keeps the cursor at the park position, and swallows
/// the move.
pub fn on_hook_move(
    x: i32,
    y: i32,
    extra_info: usize,
    last_x: i32,
    last_y: i32,
    suppress: bool,
    raw_input_active: bool,
    park: Option<(i32, i32)>,
) -> (r: MoveVerdict)
    requires
        extra_info != INJECT_SIGNATURE ==> i32::MIN <= x - last_x <= i32::MAX,
        extra_info != INJECT_SIGNATURE ==> i32::MIN <= y - last_y <= i32::MAX,
    ensures
        extra_info == INJECT_SIGNATURE ==> {
            &&& r.event is None
            &&& !r.eat
            &&& r.last == (last_x, last_y)
            &&& r.snap_to is None
        },
        extra_info != INJECT_SIGNATURE ==> {
            let moved = x != last_x || y != last_y;
            &&& r.event == (if moved && (!suppress || !raw_input_active) {
                Some(CapturedEvent::Move { dx: (x - last_x) as i32, dy: (y - last_y) as i32, abs_x: x, abs_y: y })
            } else {
                None
            })
            &&& r.eat == suppress
            &&& r.last == (match park {
                Some(p) if suppress => p,
                _ => (x, y),
            })
            &&& r.snap_to == (match park {
                Some(p) if suppress && (x != p.0 || y != p.1) => Some(p),
                _ => None,
            })
        },
{
    if extra_info == INJECT_SIGNATURE {
        return MoveVerdict { event: None, last: (last_x, last_y), snap_to: None, eat: false };
    }
    let dx = x - last_x;
    let dy = y - last_y;
    let moved = dx != 0 || dy != 0;
    let event = if moved && (!suppress || !raw_input_active) {
        Some(CapturedEvent::Move { dx, dy, abs_x: x, abs_y: y })
    } else {
        None
    };
    if suppress {
        match park {
            Some((px, py)) => {
                let snap_to = if x != px || y != py { Some((px, py)) } else { None };
                MoveVerdict { event, last: (px, py), snap_to, eat: true }
            },
            None => MoveVerdict { event, last: (x, y), snap_to: None, eat: true },
        }
    } else {
        MoveVerdict { event, last: (x, y), snap_to: None, eat: false }
    }
}

/// The keyboard hook's handling of a key message: key-down and key-up
/// messages (plain or system) become key events, swallowed while control is
/// remote; our own injected keys and other messages pass through untouched.
pub fn on_hook_key(msg: u32, vk_code: u32, flags: u32, extra_info: usize, suppress: bool) -> (r:
    HookVerdict)
    ensures
        ({
            let pressed = msg == WM_KEYDOWN || msg == WM_SYSKEYDOWN;
            let released = msg == WM_KEYUP || msg == WM_SYSKEYUP;
            if extra_info == INJECT_SIGNATURE || !(pressed || released) {
                r.event is None && !r.eat
            } else {
                &&& r.event matches Some(CapturedEvent::Input(InputEvent::Key { key, pressed: p }))
                &&& p == pressed
                &&& reads_as((vk_code % 0x1_0000) as u16, flags % 2 == 1, key)
                &&& r.eat == suppress
            }
        }),
{
    if extra_info == INJECT_SIGNATURE {
        return HookVerdict { event: None, eat: false };
    }
    let pressed = msg == WM_KEYDOWN || msg == WM_SYSKEYDOWN;
    let released = msg == WM_KEYUP || msg == WM_SYSKEYUP;
    if !(pressed || released) {
        return HookVerdict { event: None, eat: false };
    }
    let extended = flags % 2 == 1;
    let key = key_for_vk((vk_code % 0x1_0000) as u16, extended);
    HookVerdict { event: Some(CapturedEvent::Input(InputEvent::Key { key, pressed })), eat: suppress }
}

/// Raw Input's `usFlags` bit for absolute (pen, remote desktop) reports.
pub const MOUSE_MOVE_ABSOLUTE: u16 = 0x01;

/// Raw Input's button flags for a vertical and a horizontal wheel turn.
pub const RI_MOUSE_WHEEL: u16 = 0x0400;

pub const RI_MOUSE_HWHEEL: u16 = 0x0800;

/// The events of one Raw Input mouse report. While control is remote, relative
/// motion is reported (with the park position as the absolute one); absolute
/// reports are ignored. Wheel turns are always reported, vertical before
/// horizontal.
pub open spec fn raw_mouse_events(
    us_flags: u16,
    last_x: i32,
    last_y: i32,
    button_flags: u16,
    button_data: u16,
    suppress: bool,
    park_x: i32,
    park_y: i32,
) -> Seq<CapturedEvent> {
    let absolute = us_flags % 2 == 1;
    let moves = if suppress && !absolute && (last_x != 0 || last_y != 0) {
        seq![CapturedEvent::Move { dx: last_x, dy: last_y, abs_x: park_x, abs_y: park_y }]
    } else {
        seq![]
    };
    let data = signed16(button_data);
    let wheel = if (button_flags / RI_MOUSE_WHEEL) % 2 == 1 {
        seq![CapturedEvent::Input(InputEvent::MouseWheel { dx: 0, dy: data })]
    } else {
        seq![]
    };
    let hwheel = if (button_flags / RI_MOUSE_HWHEEL) % 2 == 1 {
        seq![CapturedEvent::Input(InputEvent::MouseWheel { dx: data, dy: 0 })]
    } else {
        seq![]
    };
    moves + wheel + hwheel
}

/// Decode one Raw Input mouse report.
pub fn on_raw_mouse(
    us_flags: u16,
    last_x: i32,
    last_y: i32,
    button_flags: u16,
    button_data: u16,
    suppress: bool,
    park_x: i32,
    park_y: i32,
) -> (r: Vec<CapturedEvent>)
    ensures
        r@ == raw_mouse_events(
            us_flags,
            last_x,
            last_y,
            button_flags,
            button_data,
            suppress,
            park_x,
            park_y,
        ),
{
    let mut r: Vec<CapturedEvent> = Vec::new();
    let absolute = us_flags % 2 == 1;
    if suppress && !absolute && (last_x != 0 || last_y != 0) {
        r.push(CapturedEvent::Move { dx: last_x, dy: last_y, abs_x: park_x, abs_y: park_y });
    }
    let data = to_signed16(button_data);
    if (button_flags / RI_MOUSE_WHEEL) % 2 == 1 {
        r.push(CapturedEvent::Input(InputEvent::MouseWheel { dx: 0, dy: data }));
    }
    if (button_flags / RI_MOUSE_HWHEEL) % 2 == 1 {
        r.push(CapturedEvent::Input(InputEvent::MouseWheel { dx: data, dy: 0 }));
    }
    assert(r@ =~= raw_mouse_events(
        us_flags,
        last_x,
        last_y,
        button_flags,
        button_data,
        suppress,
        park_x,
        park_y,
    ));
    r
}

/// The `SendInput` flags and `mouseData` of a button press or release.
pub open spec fn button_flags_of(button: MouseButton, pressed: bool) -> (u32, u32) {
    match button {
        MouseButton::Left => (if pressed { MOUSEEVENTF_LEFTDOWN } else { MOUSEEVENTF_LEFTUP }, 0),
        MouseButton::Right => (if pressed { MOUSEEVENTF_RIGHTDOWN } else { MOUSEEVENTF_RIGHTUP }, 0),
        MouseButton::Middle => (if pressed { MOUSEEVENTF_MIDDLEDOWN } else { MOUSEEVENTF_MIDDLEUP }, 0),
        MouseButton::X1 => (if pressed { MOUSEEVENTF_XDOWN } else { MOUSEEVENTF_XUP }, XBUTTON1),
        MouseButton::X2 => (if pressed { MOUSEEVENTF_XDOWN } else { MOUSEEVENTF_XUP }, XBUTTON2),
    }
}

/// The `SendInput` flags and `mouseData` of a button press or release.
pub fn button_flags(button: MouseButton, pressed: bool) -> (r: (u32, u32))
    ensures
        r == button_flags_of(button, pressed),
{
    match button {
        MouseButton::Left => (if pressed { MOUSEEVENTF_LEFTDOWN } else { MOUSEEVENTF_LEFTUP }, 0),
        MouseButton::Right => (if pressed { MOUSEEVENTF_RIGHTDOWN } else { MOUSEEVENTF_RIGHTUP }, 0),
        MouseButton::Middle => (if pressed { MOUSEEVENTF_MIDDLEDOWN } else { MOUSEEVENTF_MIDDLEUP }, 0),
        MouseButton::X1 => (if pressed { MOUSEEVENTF_XDOWN } else { MOUSEEVENTF_XUP }, XBUTTON1),
        MouseButton::X2 => (if pressed { MOUSEEVENTF_XDOWN } else { MOUSEEVENTF_XUP }, XBUTTON2),
    }
}

/// One keyboard `INPUT` record: virtual key, scan code (the UTF-16 unit on the
/// Unicode path) and flags.
#[derive(Clone, Copy, Debug, PartialEq, Eq, Structural)]
pub struct KeyInput {
    pub vk: u16,
    pub scan: u16,
    pub flags: u32,
}

/// The UTF-16 code units of a character.
pub open spec fn utf16_units(c: char) -> Seq<u16> {
    let v = c as u32;
    if v < 0x1_0000 {
        seq![v as u16]
    } else {
        seq![(0xD800 + (v - 0x1_0000) / 0x400) as u16, (0xDC00 + (v - 0x1_0000) % 0x400) as u16]
    }
}

/// The keyboard records that inject a key press or release: one virtual-key
/// record (key-up and extended flags as needed), or one Unicode record per
/// UTF-16 unit for a literal character.
pub open spec fn key_records(key: Key, pressed: bool) -> Seq<KeyInput> {
    let up = if pressed { 0u32 } else { KEYEVENTF_KEYUP };
    match vk_mapping(key) {
        VkMapping::Vk(vk, extended) => seq![
            KeyInput {
                vk,
                scan: 0,
                flags: (up + if extended { KEYEVENTF_EXTENDEDKEY } else { 0u32 }) as u32,
            },
        ],
        VkMapping::Unicode(c) => utf16_units(c).map_values(
            |u: u16| KeyInput { vk: 0, scan: u, flags: (KEYEVENTF_UNICODE + up) as u32 },
        ),
    }
}

/// The keyboard records that inject a key press or release.
pub fn key_inputs(key: Key, pressed: bool) -> (r: Vec<KeyInput>)
    ensures
        r@ == key_records(key, pressed),
{
    let up: u32 = if pressed { 0 } else { KEYEVENTF_KEYUP };
    let mut r: Vec<KeyInput> = Vec::new();
    match vk_for(key) {
        VkMapping::Vk(vk, extended) => {
            let ext: u32 = if extended { KEYEVENTF_EXTENDEDKEY } else { 0 };
            r.push(KeyInput { vk, scan: 0, flags: up + ext });
        },
        VkMapping::Unicode(c) => {
            let v = c as u32;
            if v < 0x1_0000 {
                r.push(KeyInput { vk: 0, scan: v as u16, flags: KEYEVENTF_UNICODE + up });
            } else {
                let w = v - 0x1_0000;
                r.push(KeyInput { vk: 0, scan: (0xD800 + w / 0x400) as u16, flags: KEYEVENTF_UNICODE + up });
                r.push(KeyInput { vk: 0, scan: (0xDC00 + w % 0x400) as u16, flags: KEYEVENTF_UNICODE + up });
            }
        },
    }
    assert(r@ =~= key_records(key, pressed));
    r
}

/// What to inject for a portable event.
#[derive(Clone, Debug, PartialEq)]
pub enum InjectPlan {
    /// One mouse record: relative motion, `mouseData` and flags.
    Mouse { dx: i32, dy: i32, data: u32, flags: u32 },
    /// An absolute move to a normalized position (the `f32` bit patterns of
    /// the event, scaled to the virtual desktop by the caller).
    MouseAbs { x_bits: u32, y_bits: u32 },
    /// Keyboard records, sent together.
    Keys(Vec<KeyInput>),
}

/// A signed wheel amount as `SendInput`'s unsigned `mouseData` (two's complement).
pub open spec fn wheel_data(v: i32) -> u32 {
    if v >= 0 {
        v as u32
    } else {
        (v + 0x1_0000_0000) as u32
    }
}

fn to_wheel_data(v: i32) -> (r: u32)
    ensures
        r == wheel_data(v),
{
    if v >= 0 {
        v as u32
    } else {
        (0xFFFF_FFFFu32 - ((-(v + 1)) as u32))
    }
}

/// Plan the injection of a portable input event: relative moves, buttons and
/// wheel turns are one mouse record (a vertical turn wins over a horizontal
/// one), keys their keyboard records.
pub fn plan_inject(ev: InputEvent) -> (r: InjectPlan)
    ensures
        match ev {
            InputEvent::MouseMove { dx, dy } => r == (InjectPlan::Mouse { dx, dy, data: 0, flags: MOUSEEVENTF_MOVE }),
            InputEvent::MouseMoveAbs { x_bits, y_bits } => r == (InjectPlan::MouseAbs { x_bits, y_bits }),
            InputEvent::MouseButton { button, pressed } => r == (InjectPlan::Mouse {
                dx: 0,
                dy: 0,
                data: button_flags_of(button, pressed).1,
                flags: button_flags_of(button, pressed).0,
            }),
            InputEvent::MouseWheel { dx, dy } => r == (if dy != 0 {
                InjectPlan::Mouse { dx: 0, dy: 0, data: wheel_data(dy), flags: MOUSEEVENTF_WHEEL }
            } else {
                InjectPlan::Mouse { dx: 0, dy: 0, data: wheel_data(dx), flags: MOUSEEVENTF_HWHEEL }
            }),
            InputEvent::Key { key, pressed } => r matches InjectPlan::Keys(recs) && recs@ == key_records(key, pressed),
        },
{
    match ev {
        InputEvent::MouseMove { dx, dy } => InjectPlan::Mouse { dx, dy, data: 0, flags: MOUSEEVENTF_MOVE },
        InputEvent::MouseMoveAbs { x_bits, y_bits } => InjectPlan::MouseAbs { x_bits, y_bits },
        InputEvent::MouseButton { button, pressed } => {
            let (flags, data) = button_flags(button, pressed);
            InjectPlan::Mouse { dx: 0, dy: 0, data, flags }
        },
        InputEvent::MouseWheel { dx, dy } => {
            if dy != 0 {
                InjectPlan::Mouse { dx: 0, dy: 0, data: to_wheel_data(dy), flags: MOUSEEVENTF_WHEEL }
            } else {
                InjectPlan::Mouse { dx: 0, dy: 0, data: to_wheel_data(dx), flags: MOUSEEVENTF_HWHEEL }
            }
        },
        InputEvent::Key { key, pressed } => InjectPlan::Keys(key_inputs(key, pressed)),
    }
}

/// The Windows injector; it holds no state.
#[derive(Default)]
pub struct WinInjector;

impl WinInjector {
    pub fn new() -> (r: Self) {
        WinInjector
    }
}

} // verus!
