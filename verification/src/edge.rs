//! Edge-transition state machine with hysteresis.
//!
//! Pure logic, no OS calls: this decides *when* control crosses between the
//! local and the remote screen. The OS layer feeds it cursor positions and
//! deltas and acts on the transitions it returns.

use vstd::prelude::*;
use crate::protocol::ScreenEdge;

verus! {

/// A pixel rectangle (e.g. the virtual desktop or one monitor).
#[derive(Clone, Copy, Debug, PartialEq, Eq, Structural)]
pub struct Rect {
    pub x: i32,
    pub y: i32,
    pub w: i32,
    pub h: i32,
}

impl Rect {
    pub fn new(x: i32, y: i32, w: i32, h: i32) -> (r: Self)
        ensures
            r == (Rect { x, y, w, h }),
    {
        Rect { x, y, w, h }
    }
}

/// Where control currently lives.
#[derive(Clone, Copy, Debug, PartialEq, Eq, Structural)]
pub enum ControlSite {
    Local,
    Remote,
}

/// A control-location change the OS layer must act on.
///
/// `ToRemote` gives where the cursor crossed as `offset` pixels along an edge
/// `span` pixels long; the normalized entry point is `offset / span` clamped to
/// `0.0..=1.0`, or `0.5` when `span <= 0` (computed by the caller, in floating
/// point).
#[derive(Clone, Copy, Debug, PartialEq, Eq, Structural)]
pub enum Transition {
    ToRemote { offset: i64, span: i32 },
    ToLocal,
}

/// The abstract state of an `EdgeDetector`.
pub ghost struct EdgeState {
    pub edge: ScreenEdge,
    pub hysteresis: int,
    pub site: ControlSite,
    pub back_push: int,
}

/// Whether the cursor at `(cx, cy)` touches the active edge of `screen`.
pub open spec fn at_edge(edge: ScreenEdge, cx: i32, cy: i32, screen: Rect) -> bool {
    match edge {
        ScreenEdge::Left => cx <= screen.x,
        ScreenEdge::Right => cx >= screen.x + screen.w - 1,
        ScreenEdge::Top => cy <= screen.y,
        ScreenEdge::Bottom => cy >= screen.y + screen.h - 1,
    }
}

/// The crossing point along the shared edge, and that edge's length.
pub open spec fn crossing(edge: ScreenEdge, cx: i32, cy: i32, screen: Rect) -> (int, int) {
    match edge {
        ScreenEdge::Left | ScreenEdge::Right => (cy - screen.y, screen.h as int),
        ScreenEdge::Top | ScreenEdge::Bottom => (cx - screen.x, screen.w as int),
    }
}

/// How far a relative motion pushes deeper into the remote screen (negative:
/// back toward the seam the user entered through).
pub open spec fn into_delta(edge: ScreenEdge, dx: i32, dy: i32) -> int {
    match edge {
        ScreenEdge::Right => dx as int,
        ScreenEdge::Left => -dx,
        ScreenEdge::Bottom => dy as int,
        ScreenEdge::Top => -dy,
    }
}

/// One cursor report while control is local.
pub open spec fn step_local(s: EdgeState, cx: i32, cy: i32, screen: Rect) -> (
    EdgeState,
    Option<Transition>,
) {
    if s.site != ControlSite::Local || !at_edge(s.edge, cx, cy, screen) {
        (s, None)
    } else {
        let (offset, span) = crossing(s.edge, cx, cy, screen);
        (
            EdgeState { site: ControlSite::Remote, back_push: 0, ..s },
            Some(Transition::ToRemote { offset: offset as i64, span: span as i32 }),
        )
    }
}

/// One relative motion while control is remote: only pressure into the seam
/// edge while the remote cursor is pinned against it counts toward returning;
/// anything else resets the streak.
pub open spec fn step_remote(s: EdgeState, dx: i32, dy: i32, at_return_edge: bool) -> (
    EdgeState,
    Option<Transition>,
) {
    if s.site != ControlSite::Remote {
        (s, None)
    } else {
        let d = into_delta(s.edge, dx, dy);
        if at_return_edge && d < 0 {
            let bp = s.back_push - d;
            if bp >= s.hysteresis {
                (EdgeState { site: ControlSite::Local, back_push: 0, ..s }, Some(Transition::ToLocal))
            } else {
                (EdgeState { back_push: bp, ..s }, None)
            }
        } else {
            (EdgeState { back_push: 0, ..s }, None)
        }
    }
}

/// The state after a series of relative motions `(dx, dy, at_return_edge)`.
pub open spec fn run_remote(s: EdgeState, moves: Seq<(i32, i32, bool)>) -> EdgeState
    decreases moves.len(),
{
    if moves.len() == 0 {
        s
    } else {
        let m = moves.last();
        step_remote(run_remote(s, moves.drop_last()), m.0, m.1, m.2).0
    }
}

/// Ordinary navigation on the remote, with the remote cursor never pinned at the
/// seam, never sends control home, however long it goes on.
pub proof fn law_mid_remote_motion_never_returns(s: EdgeState, moves: Seq<(i32, i32, bool)>)
    requires
        s.site == ControlSite::Remote,
        forall|i: int| 0 <= i < moves.len() ==> !(#[trigger] moves[i]).2,
    ensures
        run_remote(s, moves).site == ControlSite::Remote,
    decreases moves.len(),
{
    if moves.len() > 0 {
        let prefix = moves.drop_last();
        assert forall|i: int| 0 <= i < prefix.len() implies !(#[trigger] prefix[i]).2 by {
            assert(prefix[i] == moves[i]);
        }
        law_mid_remote_motion_never_returns(s, prefix);
        assert(!moves[moves.len() - 1].2);
    }
}

/// A single push back into the seam shorter than the hysteresis, right after
/// crossing, does not bring control home (no flapping at the boundary).
pub proof fn law_small_wobble_does_not_flap(s: EdgeState, dx: i32, dy: i32)
    requires
        s.site == ControlSite::Remote,
        s.back_push == 0,
        -into_delta(s.edge, dx, dy) < s.hysteresis,
    ensures
        step_remote(s, dx, dy, true).1 is None,
        step_remote(s, dx, dy, true).0.site == ControlSite::Remote,
{
}

/// Control returns by reversing the motion that crossed. Crossing at the
/// bottom edge happens with the cursor on the bottom row (it moved down), and
/// right after crossing, pressing back up (`dy <= -hysteresis`) against the seam
/// brings control home while pressing further down never does; likewise the top
/// edge (crossed moving up) returns on `dy >= hysteresis`, the right edge
/// (crossed moving right) on `dx <= -hysteresis`, the left edge (crossed moving
/// left) on `dx >= hysteresis`.
pub proof fn law_return_reverses_crossing(
    s: EdgeState,
    cx: i32,
    cy: i32,
    screen: Rect,
    dx: i32,
    dy: i32,
)
    requires
        s.site == ControlSite::Local,
        s.hysteresis >= 1,
        step_local(s, cx, cy, screen).1 is Some,
    ensures
        ({
            let t = step_local(s, cx, cy, screen).0;
            let back = step_remote(t, dx, dy, true).1;
            &&& t.site == ControlSite::Remote
            &&& s.edge == ScreenEdge::Bottom ==> {
                &&& cy >= screen.y + screen.h - 1
                &&& dy <= -s.hysteresis ==> back == Some(Transition::ToLocal)
                &&& dy >= 0 ==> back is None
            }
            &&& s.edge == ScreenEdge::Top ==> {
                &&& cy <= screen.y
                &&& dy >= s.hysteresis ==> back == Some(Transition::ToLocal)
                &&& dy <= 0 ==> back is None
            }
            &&& s.edge == ScreenEdge::Right ==> {
                &&& cx >= screen.x + screen.w - 1
                &&& dx <= -s.hysteresis ==> back == Some(Transition::ToLocal)
                &&& dx >= 0 ==> back is None
            }
            &&& s.edge == ScreenEdge::Left ==> {
                &&& cx <= screen.x
                &&& dx >= s.hysteresis ==> back == Some(Transition::ToLocal)
                &&& dx <= 0 ==> back is None
            }
        }),
{
}

/// Detects edge crossings with hysteresis to avoid jitter at the boundary.
#[derive(Clone, Debug)]
pub struct EdgeDetector {
    edge: ScreenEdge,
    /// How far (px) the user must push into the return edge of the remote before
    /// control returns.
    hysteresis: i32,
    site: ControlSite,
    /// Accumulated push toward the return edge while pinned against it.
    back_push: i64,
}

impl EdgeDetector {
    pub closed spec fn state(&self) -> EdgeState {
        EdgeState {
            edge: self.edge,
            hysteresis: self.hysteresis as int,
            site: self.site,
            back_push: self.back_push as int,
        }
    }

    pub closed spec fn wf(&self) -> bool {
        &&& 1 <= self.hysteresis
        &&& 0 <= self.back_push < self.hysteresis
        &&& self.site == ControlSite::Local ==> self.back_push == 0
    }

    pub fn new(edge: ScreenEdge, hysteresis: i32) -> (d: Self)
        ensures
            d.wf(),
            d.state() == (EdgeState {
                edge,
                hysteresis: if hysteresis < 1 { 1 } else { hysteresis as int },
                site: ControlSite::Local,
                back_push: 0,
            }),
    {
        EdgeDetector {
            edge,
            hysteresis: if hysteresis < 1 { 1 } else { hysteresis },
            site: ControlSite::Local,
            back_push: 0,
        }
    }

    /// The edge control crosses at.
    pub fn edge(&self) -> (e: ScreenEdge)
        ensures
            e == self.state().edge,
    {
        self.edge
    }

    pub fn site(&self) -> (s: ControlSite)
        ensures
            s == self.state().site,
    {
        self.site
    }

    pub fn set_edge(&mut self, edge: ScreenEdge)
        requires
            old(self).wf(),
        ensures
            final(self).wf(),
            final(self).state() == (EdgeState { edge, ..old(self).state() }),
    {
        self.edge = edge;
    }

    /// Force control back to the local machine (the snap-home path). Acts only
    /// when control is remote.
    pub fn force_home(&mut self) -> (r: Option<Transition>)
        requires
            old(self).wf(),
        ensures
            final(self).wf(),
            old(self).state().site == ControlSite::Remote ==> {
                &&& r == Some(Transition::ToLocal)
                &&& final(self).state() == (EdgeState {
                    site: ControlSite::Local,
                    back_push: 0,
                    ..old(self).state()
                })
            },
            old(self).state().site == ControlSite::Local ==> {
                &&& r == None::<Transition>
                &&& final(self).state() == old(self).state()
            },
    {
        if self.site == ControlSite::Remote {
            self.site = ControlSite::Local;
            self.back_push = 0;
            Some(Transition::ToLocal)
        } else {
            None
        }
    }

    /// Call with the absolute cursor position while control is local. Returns
    /// `ToRemote` when the cursor reaches the active edge.
    pub fn update_local(&mut self, cx: i32, cy: i32, screen: Rect) -> (r: Option<Transition>)
        requires
            old(self).wf(),
        ensures
            final(self).wf(),
            (final(self).state(), r) == step_local(old(self).state(), cx, cy, screen),
    {
        if self.site != ControlSite::Local {
            return None;
        }
        let at = match self.edge {
            ScreenEdge::Left => cx as i64 <= screen.x as i64,
            ScreenEdge::Right => cx as i64 >= screen.x as i64 + screen.w as i64 - 1,
            ScreenEdge::Top => cy as i64 <= screen.y as i64,
            ScreenEdge::Bottom => cy as i64 >= screen.y as i64 + screen.h as i64 - 1,
        };
        if !at {
            return None;
        }
        let (offset, span) = match self.edge {
            ScreenEdge::Left | ScreenEdge::Right => (cy as i64 - screen.y as i64, screen.h),
            ScreenEdge::Top | ScreenEdge::Bottom => (cx as i64 - screen.x as i64, screen.w),
        };
        self.site = ControlSite::Remote;
        self.back_push = 0;
        Some(Transition::ToRemote { offset, span })
    }

    /// Call with each relative mouse delta while control is remote.
    /// `at_return_edge` tells whether the virtual remote cursor is pinned against
    /// the seam edge (the one the user entered through). Only motion pushing
    /// further into that edge counts toward returning home.
    pub fn update_remote(&mut self, dx: i32, dy: i32, at_return_edge: bool) -> (r: Option<
        Transition,
    >)
        requires
            old(self).wf(),
        ensures
            final(self).wf(),
            (final(self).state(), r) == step_remote(old(self).state(), dx, dy, at_return_edge),
            !at_return_edge ==> r is None,
    {
        if self.site != ControlSite::Remote {
            return None;
        }
        let into: i64 = match self.edge {
            ScreenEdge::Right => dx as i64,
            ScreenEdge::Left => -(dx as i64),
            ScreenEdge::Bottom => dy as i64,
            ScreenEdge::Top => -(dy as i64),
        };
        if at_return_edge && into < 0 {
            let bp = self.back_push - into;
            if bp >= self.hysteresis as i64 {
                self.site = ControlSite::Local;
                self.back_push = 0;
                return Some(Transition::ToLocal);
            }
            self.back_push = bp;
        } else {
            self.back_push = 0;
        }
        None
    }
}

} // verus!
