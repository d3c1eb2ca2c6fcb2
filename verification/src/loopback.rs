//! The verdict of the loopback self-check: two in-process peers pair over real
//! TLS and UDP, the host side replays scripted input, and the client side
//! records what it would have injected.

use vstd::prelude::*;
use crate::protocol::InputEvent;

verus! {

/// Outcome of a loopback run.
#[derive(Debug, Clone)]
pub struct LoopbackReport {
    /// The events the client side injected, in order.
    pub injected: Vec<InputEvent>,
    /// How many times the client placed the cursor.
    pub cursor_sets: usize,
    /// Whether each side ended up trusting the other.
    pub a_trusts_b: bool,
    pub b_trusts_a: bool,
}

/// A pointer move, relative or absolute (the host relays absolute positions).
pub open spec fn is_move(e: InputEvent) -> bool {
    e is MouseMove || e is MouseMoveAbs
}

pub open spec fn is_button_press(e: InputEvent) -> bool {
    e matches InputEvent::MouseButton { pressed: true, .. }
}

pub open spec fn is_key(e: InputEvent) -> bool {
    e is Key
}

impl LoopbackReport {
    /// The run passed: a move, a button press and a key event all arrived, and
    /// the two peers trust each other.
    pub fn passed(&self) -> (r: bool)
        ensures
            r == ((exists|i: int| 0 <= i < self.injected@.len() && is_move(#[trigger] self.injected@[i]))
                && (exists|i: int| 0 <= i < self.injected@.len() && is_button_press(#[trigger] self.injected@[i]))
                && (exists|i: int| 0 <= i < self.injected@.len() && is_key(#[trigger] self.injected@[i]))
                && self.a_trusts_b && self.b_trusts_a),
    {
        let mut has_move = false;
        let mut has_button = false;
        let mut has_key = false;
        let mut i: usize = 0;
        while i < self.injected.len()
            invariant
                0 <= i <= self.injected@.len(),
                has_move == exists|j: int| 0 <= j < i && is_move(#[trigger] self.injected@[j]),
                has_button == exists|j: int| 0 <= j < i && is_button_press(#[trigger] self.injected@[j]),
                has_key == exists|j: int| 0 <= j < i && is_key(#[trigger] self.injected@[j]),
            decreases self.injected@.len() - i,
        {
            let e = self.injected[i];
            match e {
                InputEvent::MouseMove { .. } | InputEvent::MouseMoveAbs { .. } => {
                    has_move = true;
                },
                InputEvent::MouseButton { pressed: true, .. } => {
                    has_button = true;
                },
                InputEvent::Key { .. } => {
                    has_key = true;
                },
                _ => {},
            }
            i = i + 1;
        }
        has_move && has_button && has_key && self.a_trusts_b && self.b_trusts_a
    }
}

} // verus!
