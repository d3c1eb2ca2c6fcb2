//! Wire protocol: device identity, capabilities, control-channel messages and
//! the device-independent input-event format carried on the realtime channel.

use vstd::prelude::*;
use vstd::utf8::is_char_boundary;
use vstd::utf8::encode_utf8;
use vstd::string::StringSliceAdditionalSpecFns;

verus! {

/// Bumped whenever the wire format changes incompatibly. Peers refuse to talk if
/// their versions differ.
pub const PROTOCOL_VERSION: u16 = 1;

/// The UTF-8 bytes of a character sequence, as `str::as_bytes` produces them.
pub open spec fn utf8_bytes(s: Seq<char>) -> Seq<u8> {
    encode_utf8(s)
}

/// The number of bytes `DeviceId::short` keeps: at most eight.
pub open spec fn short_len(byte_len: nat) -> nat {
    if byte_len < 8 { byte_len } else { 8 }
}

/// Stable identifier for a device: the lowercase hex SHA-256 fingerprint of its
/// long-term certificate.
#[derive(Clone, Debug, PartialEq, Eq, Hash)]
pub struct DeviceId(pub String);

impl DeviceId {
    /// Short, human-friendly form for the UI: the first eight bytes.
    pub fn short(&self) -> (r: &str)
        requires
            utf8_bytes(self.0@).len() <= usize::MAX,
            is_char_boundary(
                utf8_bytes(self.0@),
                short_len(utf8_bytes(self.0@).len()) as int,
            ),
        ensures
            utf8_bytes(r@) == utf8_bytes(self.0@).subrange(
                0,
                short_len(utf8_bytes(self.0@).len()) as int,
            ),
    {
        let s = self.0.as_str();
        let n: usize = if s.len() < 8 { s.len() } else { 8 };
        assert(s.spec_bytes() == utf8_bytes(self.0@));
        let (head, _tail) = s.split_at(n);
        assert(head.spec_bytes() == utf8_bytes(head@));
        head
    }
}

/// Which edge of the host's screen rectangle a peer is attached to.
#[derive(Clone, Copy, Debug, PartialEq, Eq, Hash, Structural)]
pub enum ScreenEdge {
    Left,
    Right,
    Top,
    Bottom,
}

impl ScreenEdge {
    /// The edge across the screen from this one.
    pub fn opposite(self) -> (r: ScreenEdge)
        ensures
            r == match self {
                ScreenEdge::Left => ScreenEdge::Right,
                ScreenEdge::Right => ScreenEdge::Left,
                ScreenEdge::Top => ScreenEdge::Bottom,
                ScreenEdge::Bottom => ScreenEdge::Top,
            },
            r != self,
    {
        match self {
            ScreenEdge::Left => ScreenEdge::Right,
            ScreenEdge::Right => ScreenEdge::Left,
            ScreenEdge::Top => ScreenEdge::Bottom,
            ScreenEdge::Bottom => ScreenEdge::Top,
        }
    }
}

/// The opposite edge, as a function of spec mode.
pub open spec fn opposite_edge(e: ScreenEdge) -> ScreenEdge {
    match e {
        ScreenEdge::Left => ScreenEdge::Right,
        ScreenEdge::Right => ScreenEdge::Left,
        ScreenEdge::Top => ScreenEdge::Bottom,
        ScreenEdge::Bottom => ScreenEdge::Top,
    }
}

/// Taking the opposite edge twice gives back the edge.
pub proof fn law_opposite_is_an_involution(e: ScreenEdge)
    ensures
        opposite_edge(opposite_edge(e)) == e,
{
}

/// Mouse buttons in a device-independent form.
#[derive(Clone, Copy, Debug, PartialEq, Eq, Hash, Structural)]
pub enum MouseButton {
    Left,
    Right,
    Middle,
    X1,
    X2,
}

/// A platform-neutral keyboard key, named by physical position (US-layout names,
/// like USB HID usages) rather than any one OS's virtual-key codes.
///
/// `Char` carries a Unicode character for text with no positional name (the
/// injecting side types it directly); `Raw` carries an unmapped native code as a
/// same-OS fallback.
#[derive(Clone, Copy, Debug, PartialEq, Eq, Hash, Structural)]
pub enum Key {
    // Letters (physical positions).
    A,
    B,
    C,
    D,
    E,
    F,
    G,
    H,
    I,
    J,
    K,
    L,
    M,
    N,
    O,
    P,
    Q,
    R,
    S,
    T,
    U,
    V,
    W,
    X,
    Y,
    Z,
    // Number row.
    Num0,
    Num1,
    Num2,
    Num3,
    Num4,
    Num5,
    Num6,
    Num7,
    Num8,
    Num9,
    // Function row.
    F1,
    F2,
    F3,
    F4,
    F5,
    F6,
    F7,
    F8,
    F9,
    F10,
    F11,
    F12,
    // Modifiers.
    ControlLeft,
    ControlRight,
    ShiftLeft,
    ShiftRight,
    AltLeft,
    AltRight,
    MetaLeft,
    MetaRight,
    // Editing / whitespace.
    Enter,
    Escape,
    Backspace,
    Tab,
    Space,
    CapsLock,
    // Navigation / editing.
    Insert,
    Delete,
    Home,
    End,
    PageUp,
    PageDown,
    ArrowUp,
    ArrowDown,
    ArrowLeft,
    ArrowRight,
    // Punctuation (US-layout positions).
    Minus,
    Equal,
    BracketLeft,
    BracketRight,
    Backslash,
    Semicolon,
    Quote,
    Backquote,
    Comma,
    Period,
    Slash,
    // Numpad.
    Numpad0,
    Numpad1,
    Numpad2,
    Numpad3,
    Numpad4,
    Numpad5,
    Numpad6,
    Numpad7,
    Numpad8,
    Numpad9,
    NumpadAdd,
    NumpadSubtract,
    NumpadMultiply,
    NumpadDivide,
    NumpadDecimal,
    NumpadEnter,
    // System / locks.
    PrintScreen,
    ScrollLock,
    Pause,
    NumLock,
    ContextMenu,
    // Fallbacks.
    /// A literal character to type (layout-dependent text input).
    Char(char),
    /// An unmapped native key code (same-OS fallback only).
    Raw(u32),
}

/// Device-independent input events carried on the realtime channel.
///
/// Mouse movement is relative (raw deltas) so it survives differing resolutions
/// and per-monitor DPI. The absolute variant, used when control crosses an edge,
/// carries a position normalized to 0.0..=1.0 of the remote desktop; the library
/// only moves it around, so it holds the two `f32` values as their IEEE-754 bit
/// patterns (`f32::to_bits`).
#[derive(Clone, Copy, Debug, PartialEq, Eq, Structural)]
pub enum InputEvent {
    /// Relative mouse motion in raw units.
    MouseMove { dx: i32, dy: i32 },
    /// Absolute normalized position, as `f32` bit patterns.
    MouseMoveAbs { x_bits: u32, y_bits: u32 },
    MouseButton { button: MouseButton, pressed: bool },
    /// Wheel deltas in raw Windows wheel units (+-120 per notch). `dy` vertical,
    /// `dx` horizontal.
    MouseWheel { dx: i32, dy: i32 },
    Key { key: Key, pressed: bool },
}

/// What a peer can do, exchanged in the hello handshake.
#[derive(Clone, Copy, Debug, PartialEq, Eq, Structural)]
pub struct Capabilities {
    pub control_mode: bool,
    /// Whether this build can act as an Extend-mode display sink.
    pub extend_mode: bool,
    pub clipboard_text: bool,
    pub clipboard_images: bool,
    pub file_transfer: bool,
}

impl Default for Capabilities {
    fn default() -> (c: Self)
        ensures
            c.control_mode,
            !c.extend_mode,
            c.clipboard_text,
            !c.clipboard_images,
            !c.file_transfer,
    {
        Capabilities {
            control_mode: true,
            extend_mode: false,
            clipboard_text: true,
            clipboard_images: false,
            file_transfer: false,
        }
    }
}

/// Human-meaningful description of a device, exchanged on connect.
#[derive(Clone, Debug, PartialEq, Eq)]
pub struct DeviceInfo {
    pub id: DeviceId,
    pub name: String,
    pub os: String,
    /// UDP port this device listens on for the realtime channel.
    pub realtime_port: u16,
    pub caps: Capabilities,
}

/// The per-connection mode the user selects for a device.
#[derive(Clone, Copy, Debug, PartialEq, Eq, Structural)]
pub enum Mode {
    Control,
    Extend,
}

impl Default for Mode {
    fn default() -> (m: Self)
        ensures
            m == Mode::Control,
    {
        Mode::Control
    }
}

/// Clipboard payloads. Text only for now.
#[derive(Clone, Debug, PartialEq, Eq)]
pub enum ClipboardData {
    Text(String),
}

/// Reliable control-channel messages (TLS 1.3 / TCP), length-prefixed.
#[derive(Clone, Debug, PartialEq)]
pub enum ControlMsg {
    /// First message each side sends after the TLS handshake.
    Hello { protocol: u16, info: DeviceInfo },
    HelloAck { info: DeviceInfo },
    /// Protocol/version mismatch or refusal, with a reason for the UI.
    Reject { reason: String },
    /// Begin pairing. The comparison PIN is derived on both sides; this only
    /// signals intent.
    PairBegin,
    /// The local user confirmed the displayed PIN matches the peer's.
    PairConfirm,
    /// Sent once both sides have confirmed.
    PairConfirmed,
    PairCancel { reason: String },
    SetMode { mode: Mode },
    ModeAck { mode: Mode, ok: bool, reason: String },
    /// Where to send realtime UDP, and the epoch of its key.
    RealtimeOpen { udp_port: u16, epoch: u64 },
    /// The sender will stream its screen on the video channel.
    StartMirror { epoch: u64 },
    StopMirror,
    /// Control enters the remote screen at this normalized point (as `f32` bit
    /// patterns, like `InputEvent::MouseMoveAbs`).
    EdgeEnter { x_bits: u32, y_bits: u32 },
    /// Control leaves the remote screen, returning to the host.
    EdgeLeave,
    Clipboard(ClipboardData),
    Ping { nonce: u64 },
    Pong { nonce: u64 },
}

} // verus!
