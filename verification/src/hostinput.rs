//! The host input loop's decisions: edge crossings, the snap-home chord, relaying
//! input while control is remote, and releasing every key the remote was told
//! is held when control comes back, so no modifier stays stuck.
//!
//! `app/` owns the capture thread, the realtime socket and the floating-point
//! virtual cursor on the remote; it feeds captured events to a `HostInput` and
//! performs the `HostAction`s it gets back in order.

use vstd::prelude::*;
use crate::edge::{EdgeDetector, EdgeState, Rect, Transition, step_local, step_remote};
use crate::hotkey::{
    chord_fires, is_modifier, modifier, modifiers_after, parking_fits, park_position, park_spec,
    HotkeyDetector, Modifiers,
};
use crate::protocol::{InputEvent, Key, ScreenEdge};

verus! {

/// Something the host loop asks `app/` to do.
#[derive(Clone, Copy, Debug, PartialEq, Eq, Structural)]
pub enum HostAction {
    /// Eat (`true`) or pass through (`false`) local input.
    SetSuppress(bool),
    /// Park the local cursor at this pixel.
    Park { x: i32, y: i32 },
    /// Control entered the remote `offset` pixels along an edge `span` long: tell
    /// the peer where, and start the virtual remote cursor there.
    EdgeEnter { offset: i64, span: i32 },
    /// Move the virtual remote cursor by this delta and relay its position.
    RelayMotion { dx: i32, dy: i32 },
    /// Send this event over the realtime channel.
    Relay(InputEvent),
    /// Tell the peer control left its screen.
    EdgeLeave,
    /// Tell the UI whether control is on the remote.
    ControlOnRemote(bool),
    /// Tell the UI control was snapped home.
    SnappedHome,
    /// The snap-home chord was pressed.
    RequestSnapHome,
}

/// `s` with `k` added at the end unless already present.
pub open spec fn with_key(s: Seq<Key>, k: Key) -> Seq<Key> {
    if s.contains(k) { s } else { s.push(k) }
}

/// `s` without any occurrence of `k`.
pub open spec fn without_key(s: Seq<Key>, k: Key) -> Seq<Key>
    decreases s.len(),
{
    if s.len() == 0 {
        s
    } else if s.last() == k {
        without_key(s.drop_last(), k)
    } else {
        without_key(s.drop_last(), k).push(s.last())
    }
}

/// A key-up for each key in `s`, in order.
pub open spec fn releases(s: Seq<Key>) -> Seq<HostAction> {
    s.map_values(|k: Key| HostAction::Relay(InputEvent::Key { key: k, pressed: false }))
}

/// Seeding the remote with the held modifiers `local`: a key-down for each one
/// the remote does not hold yet, and the keys the remote then holds.
pub open spec fn seed(local: Seq<Key>, remote: Seq<Key>) -> (Seq<HostAction>, Seq<Key>)
    decreases local.len(),
{
    if local.len() == 0 {
        (seq![], remote)
    } else {
        let (acts, r) = seed(local.drop_last(), remote);
        let k = local.last();
        if r.contains(k) {
            (acts, r)
        } else {
            (acts.push(HostAction::Relay(InputEvent::Key { key: k, pressed: true })), r.push(k))
        }
    }
}

/// No key occurs twice.
pub open spec fn no_dups(s: Seq<Key>) -> bool {
    forall|i: int, j: int| 0 <= i < s.len() && 0 <= j < s.len() && i != j ==> s[i] != s[j]
}

/// The abstract state of a `HostInput`.
pub ghost struct HostView {
    pub edge: EdgeState,
    /// The Ctrl and Alt keys held, for the snap-home chord.
    pub modifiers: Modifiers,
    pub held_local: Seq<Key>,
    pub held_remote: Seq<Key>,
    pub desktop: Rect,
}

pub struct HostInput {
    detector: EdgeDetector,
    hotkey: HotkeyDetector,
    held_local: Vec<Key>,
    held_remote: Vec<Key>,
    desktop: Rect,
}

proof fn lemma_without_key(s: Seq<Key>, k: Key)
    ensures
        !without_key(s, k).contains(k),
        forall|x: Key| x != k ==> (without_key(s, k).contains(x) <==> s.contains(x)),
        no_dups(s) ==> no_dups(without_key(s, k)),
    decreases s.len(),
{
    if s.len() > 0 {
        let init = s.drop_last();
        lemma_without_key(init, k);
        let w = without_key(init, k);
        assert forall|x: Key| #[trigger] w.push(s.last()).contains(x) <==> w.contains(x) || x == s.last() by {
            if w.push(s.last()).contains(x) && x != s.last() {
                let i = choose|i: int| 0 <= i < w.push(s.last()).len() && w.push(s.last())[i] == x;
                assert(w[i] == x);
            }
            if w.contains(x) {
                let i = choose|i: int| 0 <= i < w.len() && w[i] == x;
                assert(w.push(s.last())[i] == x);
            }
            if x == s.last() {
                assert(w.push(s.last())[w.len() as int] == x);
            }
        }
        assert forall|x: Key| init.contains(x) || x == s.last() <==> #[trigger] s.contains(x) by {
            if s.contains(x) && x != s.last() {
                let i = choose|i: int| 0 <= i < s.len() && s[i] == x;
                assert(init[i] == x);
            }
            if init.contains(x) {
                let i = choose|i: int| 0 <= i < init.len() && init[i] == x;
                assert(s[i] == x);
            }
            if x == s.last() {
                assert(s[s.len() - 1] == x);
            }
        }
        if no_dups(s) {
            assert(no_dups(init)) by {
                assert forall|i: int, j: int| 0 <= i < init.len() && 0 <= j < init.len() && i != j implies init[i] != init[j] by {
                    assert(init[i] == s[i] && init[j] == s[j]);
                }
            }
            if s.last() != k {
                let w = without_key(init, k);
                assert(!init.contains(s.last())) by {
                    if init.contains(s.last()) {
                        let i = choose|i: int| 0 <= i < init.len() && init[i] == s.last();
                        assert(s[i] == s[s.len() - 1]);
                    }
                }
                assert(!w.contains(s.last()));
                assert forall|i: int, j: int| 0 <= i < w.push(s.last()).len() && 0 <= j < w.push(s.last()).len() && i != j implies w.push(s.last())[i] != w.push(s.last())[j] by {
                    if i == w.len() as int {
                        assert(w.push(s.last())[j] == w[j]);
                    } else if j == w.len() as int {
                        assert(w.push(s.last())[i] == w[i]);
                    }
                }
            }
        }
    }
}

proof fn lemma_with_key(s: Seq<Key>, k: Key)
    requires
        no_dups(s),
    ensures
        no_dups(with_key(s, k)),
        with_key(s, k).contains(k),
        forall|x: Key| #[trigger] with_key(s, k).contains(x) <==> s.contains(x) || x == k,
{
    if !s.contains(k) {
        let t = s.push(k);
        assert forall|i: int, j: int| 0 <= i < t.len() && 0 <= j < t.len() && i != j implies t[i] != t[j] by {
            if i == s.len() as int {
                assert(t[j] == s[j]);
            } else if j == s.len() as int {
                assert(t[i] == s[i]);
            }
        }
        assert(t[s.len() as int] == k);
        assert forall|x: Key| #[trigger] t.contains(x) <==> s.contains(x) || x == k by {
            if t.contains(x) && x != k {
                let i = choose|i: int| 0 <= i < t.len() && t[i] == x;
                assert(s[i] == x);
            }
            if s.contains(x) {
                let i = choose|i: int| 0 <= i < s.len() && s[i] == x;
                assert(t[i] == x);
            }
        }
    }
}

proof fn lemma_seed(local: Seq<Key>, remote: Seq<Key>)
    requires
        no_dups(remote),
    ensures
        no_dups(seed(local, remote).1),
    decreases local.len(),
{
    if local.len() > 0 {
        lemma_seed(local.drop_last(), remote);
        lemma_with_key(seed(local.drop_last(), remote).1, local.last());
    }
}

/// Seeding the remote with the held local keys leaves the remote holding every
/// key it held before and every held local key, and nothing else; each held
/// local key the remote did not hold is pressed on the remote, and nothing else
/// is pressed.
pub proof fn law_seed_presses_every_held_key(local: Seq<Key>, remote: Seq<Key>, k: Key)
    ensures
        seed(local, remote).1.contains(k) <==> local.contains(k) || remote.contains(k),
        local.contains(k) && !remote.contains(k) ==> seed(local, remote).0.contains(
            HostAction::Relay(InputEvent::Key { key: k, pressed: true }),
        ),
        forall|i: int|
            0 <= i < seed(local, remote).0.len() ==> (#[trigger] seed(local, remote).0[i] matches HostAction::Relay(
                InputEvent::Key { key, pressed },
            ) && pressed && local.contains(key) && !remote.contains(key)),
    decreases local.len(),
{
    if local.len() > 0 {
        let init = local.drop_last();
        let last = local.last();
        law_seed_presses_every_held_key(init, remote, k);
        let (acts, r) = seed(init, remote);
        assert(local =~= init.push(last));
        assert(local.contains(k) <==> init.contains(k) || k == last) by {
            if local.contains(k) && k != last {
                let i = choose|i: int| 0 <= i < local.len() && local[i] == k;
                assert(init[i] == k);
            }
            if init.contains(k) {
                let i = choose|i: int| 0 <= i < init.len() && init[i] == k;
                assert(local[i] == k);
            }
            if k == last {
                assert(local[local.len() - 1] == k);
            }
        }
        assert forall|i: int| 0 <= i < acts.len() implies (#[trigger] acts[i] matches HostAction::Relay(
            InputEvent::Key { key, pressed },
        ) && pressed && local.contains(key) && !remote.contains(key)) by {
            law_seed_presses_every_held_key(init, remote, k);
            if let HostAction::Relay(InputEvent::Key { key, pressed }) = acts[i] {
                assert(init.contains(key));
                let j = choose|j: int| 0 <= j < init.len() && init[j] == key;
                assert(local[j] == key);
            }
        }
        if !r.contains(last) {
            let a = HostAction::Relay(InputEvent::Key { key: last, pressed: true });
            assert(acts.push(a)[acts.len() as int] == a);
            assert(r.push(last)[r.len() as int] == last);
            assert(r.push(last).contains(k) <==> r.contains(k) || k == last) by {
                if r.push(last).contains(k) && k != last {
                    let i = choose|i: int| 0 <= i < r.len() + 1 && r.push(last)[i] == k;
                    assert(r[i] == k);
                }
                if r.contains(k) {
                    let i = choose|i: int| 0 <= i < r.len() && r[i] == k;
                    assert(r.push(last)[i] == k);
                }
            }
            law_seed_presses_every_held_key(init, remote, last);
            assert(local[local.len() - 1] == last);
            if acts.contains(HostAction::Relay(InputEvent::Key { key: k, pressed: true })) {
                let i = choose|i: int| 0 <= i < acts.len() && acts[i] == HostAction::Relay(InputEvent::Key { key: k, pressed: true });
                assert(acts.push(a)[i] == acts[i]);
            }
            assert forall|i: int| 0 <= i < acts.push(a).len() implies (#[trigger] acts.push(a)[i] matches HostAction::Relay(
                InputEvent::Key { key, pressed },
            ) && pressed && local.contains(key) && !remote.contains(key)) by {
                if i < acts.len() {
                    assert(acts.push(a)[i] == acts[i]);
                }
            }
        } else {
            law_seed_presses_every_held_key(init, remote, last);
        }
    }
}

impl HostInput {
    pub closed spec fn view(&self) -> HostView {
        HostView {
            edge: self.detector.state(),
            modifiers: self.hotkey.modifiers(),
            held_local: self.held_local@,
            held_remote: self.held_remote@,
            desktop: self.desktop,
        }
    }

    pub closed spec fn wf(&self) -> bool {
        &&& self.detector.wf()
        &&& no_dups(self.held_remote@)
        &&& no_dups(self.held_local@)
    }

    pub fn new(edge: ScreenEdge, hysteresis: i32, desktop: Rect) -> (h: Self)
        ensures
            h.wf(),
            h.view().edge == (EdgeState {
                edge,
                hysteresis: if hysteresis < 1 { 1 } else { hysteresis as int },
                site: crate::edge::ControlSite::Local,
                back_push: 0,
            }),
            h.view().modifiers == Modifiers::none(),
            h.view().held_local.len() == 0,
            h.view().held_remote.len() == 0,
            h.view().desktop == desktop,
    {
        HostInput {
            detector: EdgeDetector::new(edge, hysteresis),
            hotkey: HotkeyDetector::new(),
            held_local: Vec::new(),
            held_remote: Vec::new(),
            desktop,
        }
    }

    pub fn set_edge(&mut self, edge: ScreenEdge)
        requires
            old(self).wf(),
        ensures
            final(self).wf(),
            final(self).view() == (HostView {
                edge: EdgeState { edge, ..old(self).view().edge },
                ..old(self).view()
            }),
    {
        self.detector.set_edge(edge);
    }

    /// Key-ups for every key the remote holds; the remote then holds none.
    fn release_remote(&mut self, out: &mut Vec<HostAction>)
        ensures
            final(out)@ == old(out)@ + releases(old(self).view().held_remote),
            final(self).view() == (HostView { held_remote: seq![], ..old(self).view() }),
            final(self).detector == old(self).detector,
            final(self).held_local@ == old(self).held_local@,
    {
        let mut i: usize = 0;
        while i < self.held_remote.len()
            invariant
                i <= self.held_remote@.len(),
                out@ == old(out)@ + releases(self.held_remote@.take(i as int)),
            decreases self.held_remote@.len() - i,
        {
            out.push(HostAction::Relay(InputEvent::Key { key: self.held_remote[i], pressed: false }));
            assert(releases(self.held_remote@.take(i + 1)) =~= releases(self.held_remote@.take(i as int)).push(
                HostAction::Relay(InputEvent::Key { key: self.held_remote@[i as int], pressed: false }),
            ));
            i = i + 1;
        }
        assert(self.held_remote@.take(self.held_remote@.len() as int) =~= self.held_remote@);
        self.held_remote = Vec::new();
        assert(self.held_remote@ =~= seq![]);
    }

    /// The snap-home request: if control is remote, bring it home, releasing
    /// every key the remote holds.
    pub fn snap_home(&mut self) -> (r: Vec<HostAction>)
        requires
            old(self).wf(),
        ensures
            final(self).wf(),
            old(self).view().edge.site == crate::edge::ControlSite::Remote ==> {
                &&& r@ == seq![HostAction::SetSuppress(false)] + releases(old(self).view().held_remote)
                    + seq![HostAction::EdgeLeave, HostAction::SnappedHome]
                &&& final(self).view() == (HostView {
                    edge: EdgeState {
                        site: crate::edge::ControlSite::Local,
                        back_push: 0,
                        ..old(self).view().edge
                    },
                    held_remote: seq![],
                    ..old(self).view()
                })
            },
            old(self).view().edge.site == crate::edge::ControlSite::Local ==> {
                &&& r@ == Seq::<HostAction>::empty()
                &&& final(self).view() == old(self).view()
            },
    {
        let mut r: Vec<HostAction> = Vec::new();
        if self.detector.force_home().is_some() {
            r.push(HostAction::SetSuppress(false));
            self.release_remote(&mut r);
            r.push(HostAction::EdgeLeave);
            r.push(HostAction::SnappedHome);
        }
        r
    }

    /// A captured motion: `(dx, dy)` relative, `(abs_x, abs_y)` the cursor's
    /// pixel. `at_return_edge` says whether the virtual remote cursor is pinned
    /// against the seam edge.
    pub fn on_move(&mut self, dx: i32, dy: i32, abs_x: i32, abs_y: i32, at_return_edge: bool) -> (r:
        Vec<HostAction>)
        requires
            old(self).wf(),
            parking_fits(abs_x as int, abs_y as int, old(self).view().desktop),
        ensures
            final(self).wf(),
            old(self).view().edge.site == crate::edge::ControlSite::Local && step_local(
                old(self).view().edge,
                abs_x,
                abs_y,
                old(self).view().desktop,
            ).1 is Some ==> forall|k: Key|
                #[trigger] old(self).view().held_local.contains(k) ==> final(self).view().held_remote.contains(k)
                    && (!old(self).view().held_remote.contains(k) ==> r@.contains(
                    HostAction::Relay(InputEvent::Key { key: k, pressed: true }),
                )),
            old(self).view().edge.site == crate::edge::ControlSite::Local ==> {
                let (e, t) = step_local(old(self).view().edge, abs_x, abs_y, old(self).view().desktop);
                match t {
                    Some(Transition::ToRemote { offset, span }) => {
                        let (px, py) = park_spec(
                            old(self).view().edge.edge,
                            abs_x as int,
                            abs_y as int,
                            old(self).view().desktop,
                        );
                        let (seeded, remote) = seed(old(self).view().held_local, old(self).view().held_remote);
                        &&& r@ == seq![
                            HostAction::SetSuppress(true),
                            HostAction::Park { x: px as i32, y: py as i32 },
                            HostAction::EdgeEnter { offset, span },
                        ] + seeded + seq![HostAction::ControlOnRemote(true)]
                        &&& final(self).view() == (HostView { edge: e, held_remote: remote, ..old(self).view() })
                    },
                    _ => {
                        &&& r@ == Seq::<HostAction>::empty()
                        &&& final(self).view() == old(self).view()
                    },
                }
            },
            old(self).view().edge.site == crate::edge::ControlSite::Remote ==> {
                let (e, t) = step_remote(old(self).view().edge, dx, dy, at_return_edge);
                if t == Some(Transition::ToLocal) {
                    &&& r@ == seq![HostAction::RelayMotion { dx, dy }, HostAction::SetSuppress(false)]
                        + releases(old(self).view().held_remote) + seq![
                        HostAction::EdgeLeave,
                        HostAction::ControlOnRemote(false),
                    ]
                    &&& final(self).view() == (HostView { edge: e, held_remote: seq![], ..old(self).view() })
                } else {
                    &&& r@ == seq![HostAction::RelayMotion { dx, dy }]
                    &&& final(self).view() == (HostView { edge: e, ..old(self).view() })
                }
            },
    {
        let mut r: Vec<HostAction> = Vec::new();
        match self.detector.site() {
            crate::edge::ControlSite::Local => {
                let edge_now = self.detector_edge();
                match self.detector.update_local(abs_x, abs_y, self.desktop) {
                    Some(Transition::ToRemote { offset, span }) => {
                        r.push(HostAction::SetSuppress(true));
                        let (px, py) = park_position(edge_now, abs_x, abs_y, self.desktop);
                        r.push(HostAction::Park { x: px, y: py });
                        r.push(HostAction::EdgeEnter { offset, span });
                        proof {
                            lemma_seed(self.held_local@, self.held_remote@);
                        }
                        let ghost before = r@;
                        let ghost local = self.held_local@;
                        let ghost remote = self.held_remote@;
                        self.seed_remote(&mut r);
                        r.push(HostAction::ControlOnRemote(true));
                        proof {
                            assert forall|k: Key| #[trigger] local.contains(k) implies self.held_remote@.contains(k)
                                && (!remote.contains(k) ==> r@.contains(
                                HostAction::Relay(InputEvent::Key { key: k, pressed: true }),
                            )) by {
                                law_seed_presses_every_held_key(local, remote, k);
                                if !remote.contains(k) {
                                    let a = HostAction::Relay(InputEvent::Key { key: k, pressed: true });
                                    let sd = seed(local, remote).0;
                                    let i = choose|i: int| 0 <= i < sd.len() && sd[i] == a;
                                    assert(r@[before.len() + i] == a);
                                }
                            }
                        }
                    },
                    _ => {},
                }
            },
            crate::edge::ControlSite::Remote => {
                r.push(HostAction::RelayMotion { dx, dy });
                match self.detector.update_remote(dx, dy, at_return_edge) {
                    Some(Transition::ToLocal) => {
                        r.push(HostAction::SetSuppress(false));
                        self.release_remote(&mut r);
                        r.push(HostAction::EdgeLeave);
                        r.push(HostAction::ControlOnRemote(false));
                    },
                    _ => {},
                }
            },
        }
        r
    }

    fn detector_edge(&self) -> (e: ScreenEdge)
        ensures
            e == self.view().edge.edge,
    {
        self.detector.edge()
    }

    /// Press on the remote every held local modifier it does not hold yet.
    fn seed_remote(&mut self, out: &mut Vec<HostAction>)
        requires
            no_dups(old(self).held_remote@),
        ensures
            final(out)@ == old(out)@ + seed(old(self).held_local@, old(self).held_remote@).0,
            final(self).held_remote@ == seed(old(self).held_local@, old(self).held_remote@).1,
            final(self).detector == old(self).detector,
            final(self).held_local@ == old(self).held_local@,
            final(self).hotkey == old(self).hotkey,
            final(self).desktop == old(self).desktop,
    {
        let mut i: usize = 0;
        while i < self.held_local.len()
            invariant
                i <= self.held_local@.len(),
                self.held_local@ == old(self).held_local@,
                self.detector == old(self).detector,
                self.hotkey == old(self).hotkey,
                self.desktop == old(self).desktop,
                out@ == old(out)@ + seed(self.held_local@.take(i as int), old(self).held_remote@).0,
                self.held_remote@ == seed(self.held_local@.take(i as int), old(self).held_remote@).1,
            decreases self.held_local@.len() - i,
        {
            let k = self.held_local[i];
            assert(self.held_local@.take(i + 1).drop_last() =~= self.held_local@.take(i as int));
            if !contains_key(&self.held_remote, k) {
                out.push(HostAction::Relay(InputEvent::Key { key: k, pressed: true }));
                self.held_remote.push(k);
            }
            i = i + 1;
        }
        assert(self.held_local@.take(self.held_local@.len() as int) =~= self.held_local@);
    }

    /// A captured button, wheel or key event. Modifiers are tracked whatever
    /// side has control; the snap-home chord is handled here and never relayed;
    /// while control is remote everything else is relayed, and keys are tracked
    /// so they can be released on the way home.
    pub fn on_input(&mut self, ev: InputEvent) -> (r: Vec<HostAction>)
        requires
            old(self).wf(),
        ensures
            final(self).wf(),
            final(self).view().edge == old(self).view().edge,
            final(self).view().desktop == old(self).view().desktop,
            final(self).view().modifiers == match ev {
                InputEvent::Key { key, pressed } => modifiers_after(old(self).view().modifiers, key, pressed),
                _ => old(self).view().modifiers,
            },
            final(self).view().held_local == match ev {
                InputEvent::Key { key, pressed } => if modifier(key) {
                    if pressed {
                        with_key(old(self).view().held_local, key)
                    } else {
                        without_key(old(self).view().held_local, key)
                    }
                } else {
                    old(self).view().held_local
                },
                _ => old(self).view().held_local,
            },
            ({
                let chord = ev matches InputEvent::Key { key, pressed } && chord_fires(
                    old(self).view().modifiers,
                    key,
                    pressed,
                );
                let remote = old(self).view().edge.site == crate::edge::ControlSite::Remote;
                &&& chord ==> r@ == seq![HostAction::RequestSnapHome]
                    && final(self).view().held_remote == old(self).view().held_remote
                &&& !chord && remote ==> r@ == seq![HostAction::Relay(ev)]
                    && final(self).view().held_remote == match ev {
                    InputEvent::Key { key, pressed } => if pressed {
                        with_key(old(self).view().held_remote, key)
                    } else {
                        without_key(old(self).view().held_remote, key)
                    },
                    _ => old(self).view().held_remote,
                }
                &&& !chord && !remote ==> r@ == Seq::<HostAction>::empty()
                    && final(self).view().held_remote == old(self).view().held_remote
            }),
    {
        let mut r: Vec<HostAction> = Vec::new();
        match ev {
            InputEvent::Key { key, pressed } => {
                if is_modifier(key) {
                    if pressed {
                        proof {
                            lemma_with_key(self.held_local@, key);
                        }
                        if !contains_key(&self.held_local, key) {
                            self.held_local.push(key);
                        }
                    } else {
                        proof {
                            lemma_without_key(self.held_local@, key);
                        }
                        let kept = without(&self.held_local, key);
                        self.held_local = kept;
                    }
                }
                if self.hotkey.on_key(key, pressed) {
                    r.push(HostAction::RequestSnapHome);
                    return r;
                }
            },
            _ => {},
        }
        if self.detector.site() == crate::edge::ControlSite::Remote {
            match ev {
                InputEvent::Key { key, pressed } => {
                    if pressed {
                        proof {
                            lemma_with_key(self.held_remote@, key);
                        }
                        if !contains_key(&self.held_remote, key) {
                            self.held_remote.push(key);
                        }
                    } else {
                        proof {
                            lemma_without_key(self.held_remote@, key);
                        }
                        let kept = without(&self.held_remote, key);
                        self.held_remote = kept;
                    }
                },
                _ => {},
            }
            r.push(HostAction::Relay(ev));
        }
        r
    }
}

fn contains_key(v: &Vec<Key>, k: Key) -> (r: bool)
    ensures
        r == v@.contains(k),
{
    let mut i: usize = 0;
    while i < v.len()
        invariant
            i <= v@.len(),
            forall|j: int| 0 <= j < i ==> v@[j] != k,
        decreases v@.len() - i,
    {
        if v[i] == k {
            assert(v@[i as int] == k);
            return true;
        }
        i = i + 1;
    }
    false
}

fn without(v: &Vec<Key>, k: Key) -> (r: Vec<Key>)
    ensures
        r@ == without_key(v@, k),
{
    let mut out: Vec<Key> = Vec::new();
    let mut i: usize = 0;
    while i < v.len()
        invariant
            i <= v@.len(),
            out@ == without_key(v@.take(i as int), k),
        decreases v@.len() - i,
    {
        assert(v@.take(i + 1).drop_last() =~= v@.take(i as int));
        if v[i] != k {
            out.push(v[i]);
        }
        i = i + 1;
    }
    assert(v@.take(v@.len() as int) =~= v@);
    out
}

/// However control comes home, the remote is left holding no key: every key it
/// was told is down gets a key-up.
pub proof fn law_return_home_releases_everything(held_remote: Seq<Key>, k: Key)
    requires
        held_remote.contains(k),
    ensures
        releases(held_remote).contains(HostAction::Relay(InputEvent::Key { key: k, pressed: false })),
{
    let i = choose|i: int| 0 <= i < held_remote.len() && held_remote[i] == k;
    assert(releases(held_remote)[i] == HostAction::Relay(InputEvent::Key { key: k, pressed: false }));
}

} // verus!
