//! Platform-independent pieces of input capture and injection: the event the
//! capture layer reports, the desktop bounds off Windows, and the no-op
//! backends that keep the loopback dev mode working everywhere.

use vstd::prelude::*;
use crate::edge::Rect;
use crate::protocol::InputEvent;

verus! {

/// An event observed by the host's capture layer.
#[derive(Clone, Copy, Debug, PartialEq)]
pub enum CapturedEvent {
    /// Mouse motion, with both relative deltas (to relay) and the absolute
    /// position (for local edge detection).
    Move { dx: i32, dy: i32, abs_x: i32, abs_y: i32 },
    /// A button, wheel or key event already normalized for relay.
    Input(InputEvent),
}

/// Mark the process per-monitor DPI aware so coordinates are physical pixels.
/// Only Windows has such a setting; this build has nothing to do.
pub fn set_dpi_aware() {
}

/// The bounds of the local (virtual) desktop in physical pixels. Without a
/// platform query this is a 1920x1080 desktop at the origin, so the loopback
/// dev mode has something to work with.
pub fn desktop_rect() -> (r: Rect)
    ensures
        r == (Rect { x: 0, y: 0, w: 1920, h: 1080 }),
{
    Rect::new(0, 0, 1920, 1080)
}

/// Injector that only logs what it would inject.
#[derive(Default)]
pub struct StubInjector;

impl StubInjector {
    /// The stub's desktop: the default one.
    pub fn desktop_rect(&self) -> (r: Rect)
        ensures
            r == (Rect { x: 0, y: 0, w: 1920, h: 1080 }),
    {
        desktop_rect()
    }
}

/// Capturer that never reports an event.
#[derive(Default)]
pub struct StubCapturer;

} // verus!
