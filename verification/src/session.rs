//! The per-connection session state machine: hello exchange, numeric-comparison
//! pairing, and the authenticated control loop.
//!
//! `app/` owns the TLS stream, the timers and the worker threads. It feeds every
//! inbound control message, local command and ping tick to a `Session`, and
//! performs the `Action`s it gets back in order.

use vstd::prelude::*;
use crate::bytes::{ascii_chars, dec, decimal_string, str_eq};
use crate::pairing::{comparison_pin, pin_code, PairingState};
use crate::protocol::{utf8_bytes, ClipboardData, ControlMsg, Mode, ScreenEdge, PROTOCOL_VERSION};
use crate::trust::TrustStore;

verus! {

/// Connection state surfaced to the UI.
#[derive(Clone, Debug, PartialEq, Eq)]
pub enum ConnState {
    Connecting,
    Pairing,
    Connected { controlling: bool },
    Disconnected,
    Error(String),
}

/// Which side of the connection this device is.
#[derive(Clone, Copy, Debug, PartialEq, Eq, Structural)]
pub enum Role {
    /// We have the keyboard and mouse and drive the peer, attached past `edge`;
    /// `epoch` keys the realtime channel we open.
    Controller { edge: ScreenEdge, epoch: u64 },
    /// We are driven by the peer (we inject its input).
    Controlled,
}

/// A local command for one session (from the UI).
#[derive(Clone, Copy, Debug, PartialEq, Eq, Structural)]
pub enum SessionCmd {
    Confirm,
    Cancel,
    Disconnect,
    SetEdge(ScreenEdge),
    SnapHome,
    /// Start sharing our screen; `epoch` keys the video channel.
    StartMirror { epoch: u64 },
    StopMirror,
}

/// Whether a command addressed to `fingerprint` goes to a session whose peer is
/// `peer_fp`: an empty fingerprint addresses every session, any other only the
/// session with that peer.
pub fn routes_to(peer_fp: &Option<String>, fingerprint: &str) -> (r: bool)
    ensures
        r == (fingerprint@.len() == 0 || (peer_fp matches Some(fp) && fp@ == fingerprint@)),
{
    if fingerprint.is_empty() {
        return true;
    }
    match peer_fp {
        Some(fp) => str_eq(fp.as_str(), fingerprint),
        None => false,
    }
}

/// Why a session ended.
#[derive(Clone, Debug, PartialEq, Eq)]
pub enum EndReason {
    /// The peer speaks protocol version `peer`.
    ProtocolMismatch { peer: u16 },
    /// The first message was not a `Hello`.
    ExpectedHello,
    PeerCancelledPairing(String),
    UnexpectedDuringPairing,
    ClosedDuringPairing,
    LocalCancel,
    PeerRejected(String),
    /// The peer closed the connection (a normal end).
    PeerClosed,
    /// We disconnected (a normal end).
    LocalDisconnect,
}

/// A status line for the UI, about the peer.
#[derive(Clone, Copy, Debug, PartialEq, Eq, Structural)]
pub enum Note {
    Paired,
    Viewing,
    Sharing,
}

/// Something the session asks `app/` to do.
#[derive(Clone, Debug, PartialEq)]
pub enum Action {
    /// Write a control message to the peer.
    Send(ControlMsg),
    /// Report the peer's connection state.
    PeerState(ConnState),
    /// Show this comparison code and ask the user to confirm it.
    PairingPrompt { pin: String },
    PairingResult { ok: bool },
    Status(Note),
    /// Record the peer (fingerprint and name) as trusted.
    TrustPeer,
    /// Start clipboard synchronization with the peer.
    StartClipboard,
    /// Open the outbound realtime channel and start capturing local input.
    StartHostInput { edge: ScreenEdge, epoch: u64 },
    SnapHome,
    SetHostEdge(ScreenEdge),
    /// Open the inbound realtime channel with this epoch and inject what arrives.
    OpenInbound { epoch: u64 },
    /// Place the local cursor at this normalized point (`f32` bit patterns).
    SetCursor { x_bits: u32, y_bits: u32 },
    ApplyClipboard(String),
    /// A pong for ping `nonce` arrived: record the round-trip time.
    RecordRtt { nonce: u64 },
    /// Start (or restart) showing the peer's screen.
    StartViewing { epoch: u64 },
    StopViewing,
    StartSharing { epoch: u64 },
    StopSharing,
    /// Stop everything the session started (input, sharing, viewing, clipboard,
    /// the inbound realtime channel).
    Teardown,
    End(EndReason),
}

#[derive(Clone, Copy, Debug, PartialEq, Eq, Structural)]
pub enum Phase {
    AwaitHello,
    Pairing,
    Active,
    Closed,
}

/// The abstract state of a `Session`.
pub ghost struct SessionView {
    pub role: Role,
    pub realtime_port: u16,
    pub local_fp: Seq<char>,
    pub phase: Phase,
    pub peer_fp: Seq<char>,
    pub peer_name: Seq<char>,
    pub trusted_at_hello: bool,
    pub pairing: PairingState,
    pub sharing: bool,
    pub ping_nonce: u64,
    pub outstanding: Seq<u64>,
}

/// The peer may act on this device: it was already trusted when it said hello,
/// or both users confirmed the comparison code.
pub open spec fn authorized(v: SessionView) -> bool {
    v.trusted_at_hello || (v.pairing.local_confirmed && v.pairing.remote_confirmed)
}

/// Actions that let the peer affect this device or that trust it.
pub open spec fn privileged(a: Action) -> bool {
    ||| a is TrustPeer
    ||| a is StartClipboard
    ||| a is StartHostInput
    ||| a is OpenInbound
    ||| a is SetCursor
    ||| a is ApplyClipboard
}

/// No privileged action is taken unless the session is active and authorized.
pub open spec fn guarded(actions: Seq<Action>, after: SessionView) -> bool {
    forall|i: int|
        0 <= i < actions.len() && privileged(#[trigger] actions[i]) ==> after.phase == Phase::Active
            && authorized(after)
}

/// `s` without the first occurrence of `x`.
pub open spec fn remove_first(s: Seq<u64>, x: u64) -> Seq<u64>
    decreases s.len(),
{
    if s.len() == 0 {
        s
    } else if s[0] == x {
        s.drop_first()
    } else {
        seq![s[0]] + remove_first(s.drop_first(), x)
    }
}

proof fn lemma_remove_first_at(s: Seq<u64>, x: u64, i: int)
    requires
        0 <= i < s.len(),
        s[i] == x,
        forall|j: int| 0 <= j < i ==> s[j] != x,
    ensures
        remove_first(s, x) == s.remove(i),
        s.contains(x),
    decreases i,
{
    if i == 0 {
        assert(s.drop_first() =~= s.remove(0));
    } else {
        lemma_remove_first_at(s.drop_first(), x, i - 1);
        assert(seq![s[0]] + s.drop_first().remove(i - 1) =~= s.remove(i));
    }
}

/// The first position of `x` in `v`.
fn first_position(v: &Vec<u64>, x: u64) -> (r: Option<usize>)
    ensures
        r matches Some(i) ==> i < v@.len() && v@[i as int] == x && forall|j: int|
            0 <= j < i ==> v@[j] != x,
        r is None ==> !v@.contains(x),
{
    let mut i: usize = 0;
    while i < v.len()
        invariant
            i <= v@.len(),
            forall|j: int| 0 <= j < i ==> v@[j] != x,
        decreases v@.len() - i,
    {
        if v[i] == x {
            return Some(i);
        }
        i = i + 1;
    }
    None
}

/// What entering the active phase does.
pub open spec fn activation(v: SessionView) -> Seq<Action> {
    let controlling = v.role is Controller;
    seq![Action::StartClipboard] + match v.role {
        Role::Controller { edge, epoch } => seq![
            Action::Send(ControlMsg::SetMode { mode: Mode::Control }),
            Action::Send(ControlMsg::RealtimeOpen { udp_port: v.realtime_port, epoch }),
            Action::StartHostInput { edge, epoch },
        ],
        Role::Controlled => seq![],
    } + seq![Action::PeerState(ConnState::Connected { controlling })]
}

/// What completing pairing does.
pub open spec fn completion(v: SessionView) -> Seq<Action> {
    seq![Action::TrustPeer, Action::PairingResult { ok: true }, Action::Status(Note::Paired)]
        + activation(v)
}

/// What a controlling session must do when it becomes active: open the peer's
/// realtime channel on our UDP port under the role's epoch (without it none of
/// the relayed input reaches the peer) and start the host input at the role's
/// edge.
pub open spec fn opens_control(actions: Seq<Action>, v: SessionView) -> bool {
    v.role matches Role::Controller { edge, epoch } ==> {
        &&& actions.contains(Action::Send(ControlMsg::SetMode { mode: Mode::Control }))
        &&& actions.contains(
            Action::Send(ControlMsg::RealtimeOpen { udp_port: v.realtime_port, epoch }),
        )
        &&& actions.contains(Action::StartHostInput { edge, epoch })
    }
}

proof fn lemma_contains_after(a: Seq<Action>, b: Seq<Action>, x: Action)
    requires
        b.contains(x),
    ensures
        (a + b).contains(x),
{
    let i = choose|i: int| 0 <= i < b.len() && b[i] == x;
    assert((a + b)[a.len() + i] == x);
}

proof fn lemma_opens_after(a: Seq<Action>, b: Seq<Action>, v: SessionView)
    requires
        opens_control(b, v),
    ensures
        opens_control(a + b, v),
{
    if let Role::Controller { edge, epoch } = v.role {
        lemma_contains_after(a, b, Action::Send(ControlMsg::SetMode { mode: Mode::Control }));
        lemma_contains_after(
            a,
            b,
            Action::Send(ControlMsg::RealtimeOpen { udp_port: v.realtime_port, epoch }),
        );
        lemma_contains_after(a, b, Action::StartHostInput { edge, epoch });
    }
}

/// Becoming active as the controlling side opens the peer's realtime channel on
/// our realtime port under the role's epoch, sets the peer to the controlled
/// mode and starts host input at the role's edge; becoming active as the
/// controlled side starts no host input and opens no channel. This holds both
/// for a peer trusted at hello and for one that just completed pairing.
pub proof fn law_activation_opens_control(v: SessionView)
    ensures
        opens_control(activation(v), v),
        opens_control(completion(v), v),
        v.role is Controlled ==> forall|i: int|
            0 <= i < completion(v).len() ==> !(#[trigger] completion(v)[i] is StartHostInput)
                && !(completion(v)[i] matches Action::Send(ControlMsg::RealtimeOpen { .. })),
{
    let a = activation(v);
    if let Role::Controller { edge, epoch } = v.role {
        assert(a[1] == Action::Send(ControlMsg::SetMode { mode: Mode::Control }));
        assert(a[2] == Action::Send(ControlMsg::RealtimeOpen { udp_port: v.realtime_port, epoch }));
        assert(a[3] == Action::StartHostInput { edge, epoch });
    }
    lemma_opens_after(
        seq![Action::TrustPeer, Action::PairingResult { ok: true }, Action::Status(Note::Paired)],
        a,
        v,
    );
}

/// What the end of an active session does.
pub open spec fn shutdown(reason: EndReason) -> Seq<Action> {
    seq![Action::Teardown, Action::PeerState(ConnState::Disconnected), Action::End(reason)]
}

pub struct Session {
    role: Role,
    realtime_port: u16,
    local_fp: String,
    phase: Phase,
    peer_fp: String,
    peer_name: String,
    trusted_at_hello: bool,
    pairing: PairingState,
    sharing: bool,
    ping_nonce: u64,
    outstanding: Vec<u64>,
}

impl Session {
    pub closed spec fn view(&self) -> SessionView {
        SessionView {
            role: self.role,
            realtime_port: self.realtime_port,
            local_fp: self.local_fp@,
            phase: self.phase,
            peer_fp: self.peer_fp@,
            peer_name: self.peer_name@,
            trusted_at_hello: self.trusted_at_hello,
            pairing: self.pairing,
            sharing: self.sharing,
            ping_nonce: self.ping_nonce,
            outstanding: self.outstanding@,
        }
    }

    /// Active sessions are authorized ones; a session still pairing has not
    /// completed pairing and did not start out trusted.
    pub open spec fn wf(&self) -> bool {
        &&& self.view().phase == Phase::Active ==> authorized(self.view())
        &&& self.view().phase == Phase::Pairing ==> !authorized(self.view())
        &&& self.view().phase == Phase::AwaitHello ==> !self.view().trusted_at_hello
            && !self.view().pairing.local_confirmed && !self.view().pairing.remote_confirmed
    }

    /// A session with the peer, before its hello. `local_fingerprint` is our
    /// certificate fingerprint; `realtime_port` our UDP port.
    pub fn new(role: Role, local_fingerprint: String, realtime_port: u16) -> (s: Self)
        ensures
            s.wf(),
            s.view() == (SessionView {
                role,
                realtime_port,
                local_fp: local_fingerprint@,
                phase: Phase::AwaitHello,
                peer_fp: Seq::empty(),
                peer_name: Seq::empty(),
                trusted_at_hello: false,
                pairing: PairingState { local_confirmed: false, remote_confirmed: false },
                sharing: false,
                ping_nonce: 0,
                outstanding: Seq::empty(),
            }),
    {
        Session {
            role,
            realtime_port,
            local_fp: local_fingerprint,
            phase: Phase::AwaitHello,
            peer_fp: String::new(),
            peer_name: String::new(),
            trusted_at_hello: false,
            pairing: PairingState::new(),
            sharing: false,
            ping_nonce: 0,
            outstanding: Vec::new(),
        }
    }

    /// The peer's fingerprint (empty before its hello).
    pub fn peer_fingerprint(&self) -> (r: &str)
        ensures
            r@ == self.view().peer_fp,
    {
        self.peer_fp.as_str()
    }

    /// The peer's name (empty before its hello).
    pub fn peer_name(&self) -> (r: &str)
        ensures
            r@ == self.view().peer_name,
    {
        self.peer_name.as_str()
    }

    pub fn phase(&self) -> (p: Phase)
        ensures
            p == self.view().phase,
    {
        self.phase
    }

    fn activate(&mut self) -> (r: Vec<Action>)
        requires
            authorized(old(self).view()),
        ensures
            final(self).view() == (SessionView { phase: Phase::Active, ..old(self).view() }),
            r@ == activation(old(self).view()),
            opens_control(r@, old(self).view()),
    {
        self.phase = Phase::Active;
        let mut r: Vec<Action> = Vec::new();
        r.push(Action::StartClipboard);
        let controlling = match self.role {
            Role::Controller { edge, epoch } => {
                r.push(Action::Send(ControlMsg::SetMode { mode: Mode::Control }));
                r.push(
                    Action::Send(ControlMsg::RealtimeOpen { udp_port: self.realtime_port, epoch }),
                );
                r.push(Action::StartHostInput { edge, epoch });
                true
            },
            Role::Controlled => false,
        };
        r.push(Action::PeerState(ConnState::Connected { controlling }));
        assert(r@ =~= activation(old(self).view()));
        proof {
            law_activation_opens_control(old(self).view());
        }
        r
    }

    /// Handle the peer's first message. A `Hello` of our protocol version names
    /// the peer: a trusted peer makes the session active at once, any other
    /// starts pairing. A different version is refused with a `Reject`; anything
    /// else ends the session.
    pub fn on_hello(&mut self, msg: ControlMsg, trust: &TrustStore) -> (r: Vec<Action>)
        requires
            old(self).wf(),
            old(self).view().phase == Phase::AwaitHello,
        ensures
            final(self).wf(),
            old(self).view().phase != Phase::Active && final(self).view().phase == Phase::Active
                ==> (old(self).view().role matches Role::Controller { edge, epoch } ==> {
                &&& r@.contains(Action::Send(ControlMsg::SetMode { mode: Mode::Control }))
                &&& r@.contains(
                    Action::Send(
                        ControlMsg::RealtimeOpen { udp_port: old(self).view().realtime_port, epoch },
                    ),
                )
                &&& r@.contains(Action::StartHostInput { edge, epoch })
            }),
            guarded(r@, final(self).view()),
            match msg {
                ControlMsg::Hello { protocol, info } => if protocol != PROTOCOL_VERSION {
                    &&& final(self).view() == (SessionView {
                        phase: Phase::Closed,
                        ..old(self).view()
                    })
                    &&& r@.len() == 2
                    &&& r@[0] matches Action::Send(ControlMsg::Reject { reason }) && reason@
                        == "protocol "@ + ascii_chars(dec(protocol as nat)) + " != "@
                        + ascii_chars(dec(PROTOCOL_VERSION as nat))
                    &&& r@[1] == Action::End(EndReason::ProtocolMismatch { peer: protocol })
                } else {
                    let named = SessionView {
                        peer_fp: info.id.0@,
                        peer_name: info.name@,
                        trusted_at_hello: trust@.dom().contains(info.id.0@),
                        ..old(self).view()
                    };
                    if trust@.dom().contains(info.id.0@) {
                        &&& final(self).view() == (SessionView { phase: Phase::Active, ..named })
                        &&& r@ == activation(named)
                    } else {
                        &&& final(self).view() == (SessionView { phase: Phase::Pairing, ..named })
                        &&& r@.len() == 3
                        &&& r@[0] == Action::PeerState(ConnState::Pairing)
                        &&& r@[1] matches Action::PairingPrompt { pin } && pin@ == pin_code(
                            utf8_bytes(old(self).view().local_fp),
                            utf8_bytes(info.id.0@),
                        )
                        &&& r@[2] == Action::Send(ControlMsg::PairBegin)
                    }
                },
                _ => {
                    &&& final(self).view() == (SessionView {
                        phase: Phase::Closed,
                        ..old(self).view()
                    })
                    &&& r@ == seq![Action::End(EndReason::ExpectedHello)]
                },
            },
    {
        proof {
            reveal_strlit("protocol ");
            reveal_strlit(" != ");
        }
        match msg {
            ControlMsg::Hello { protocol, info } => {
                if protocol != PROTOCOL_VERSION {
                    self.phase = Phase::Closed;
                    let mut reason = String::from_str("protocol ");
                    let theirs = decimal_string(protocol as u64);
                    reason.append(theirs.as_str());
                    reason.append(" != ");
                    let ours = decimal_string(PROTOCOL_VERSION as u64);
                    reason.append(ours.as_str());
                    let mut r: Vec<Action> = Vec::new();
                    r.push(Action::Send(ControlMsg::Reject { reason }));
                    r.push(Action::End(EndReason::ProtocolMismatch { peer: protocol }));
                    return r;
                }
                let trusted = trust.is_trusted(info.id.0.as_str());
                self.peer_fp = info.id.0;
                self.peer_name = info.name;
                self.trusted_at_hello = trusted;
                if trusted {
                    let r = self.activate();
                    r
                } else {
                    self.phase = Phase::Pairing;
                    let pin = comparison_pin(self.local_fp.as_str(), self.peer_fp.as_str());
                    let mut r: Vec<Action> = Vec::new();
                    r.push(Action::PeerState(ConnState::Pairing));
                    r.push(Action::PairingPrompt { pin });
                    r.push(Action::Send(ControlMsg::PairBegin));
                    r
                }
            },
            _ => {
                self.phase = Phase::Closed;
                let mut r: Vec<Action> = Vec::new();
                r.push(Action::End(EndReason::ExpectedHello));
                assert(r@ =~= seq![Action::End(EndReason::ExpectedHello)]);
                r
            },
        }
    }

    fn complete_if_confirmed(&mut self, r: &mut Vec<Action>)
        requires
            old(self).view().phase == Phase::Pairing,
            !old(self).view().trusted_at_hello,
        ensures
            authorized(old(self).view()) ==> {
                &&& final(self).view() == (SessionView { phase: Phase::Active, ..old(self).view() })
                &&& final(r)@ == old(r)@ + completion(old(self).view())
                &&& opens_control(final(r)@, old(self).view())
            },
            !authorized(old(self).view()) ==> {
                &&& final(self).view() == old(self).view()
                &&& final(r)@ == old(r)@
            },
    {
        if self.pairing.is_complete() {
            let ghost before = self.view();
            r.push(Action::TrustPeer);
            r.push(Action::PairingResult { ok: true });
            r.push(Action::Status(Note::Paired));
            let mut rest = self.activate();
            r.append(&mut rest);
            assert(r@ =~= old(r)@ + completion(before));
            proof {
                law_activation_opens_control(before);
                lemma_opens_after(old(r)@, completion(before), before);
            }
        }
    }

    /// Handle a control message from the peer after its hello.
    ///
    /// While pairing: the peer's confirmation counts toward completing it, a
    /// cancel or any other message ends the session. Once active: the
    /// controlled side acknowledges the mode, opens the inbound realtime channel
    /// and places the cursor where control enters; either side applies the
    /// peer's clipboard, answers pings, records pongs for pings it sent, starts
    /// or stops viewing the peer's screen, and ends on a `Reject`.
    pub fn on_message(&mut self, msg: ControlMsg) -> (r: Vec<Action>)
        requires
            old(self).wf(),
            old(self).view().phase == Phase::Pairing || old(self).view().phase == Phase::Active,
        ensures
            final(self).wf(),
            old(self).view().phase != Phase::Active && final(self).view().phase == Phase::Active
                ==> (old(self).view().role matches Role::Controller { edge, epoch } ==> {
                &&& r@.contains(Action::Send(ControlMsg::SetMode { mode: Mode::Control }))
                &&& r@.contains(
                    Action::Send(
                        ControlMsg::RealtimeOpen { udp_port: old(self).view().realtime_port, epoch },
                    ),
                )
                &&& r@.contains(Action::StartHostInput { edge, epoch })
            }),
            guarded(r@, final(self).view()),
            old(self).view().phase == Phase::Pairing ==> match msg {
                ControlMsg::PairBegin => {
                    &&& final(self).view() == old(self).view()
                    &&& r@ == Seq::<Action>::empty()
                },
                ControlMsg::PairConfirm => {
                    let v = SessionView {
                        pairing: PairingState { remote_confirmed: true, ..old(self).view().pairing },
                        ..old(self).view()
                    };
                    if authorized(v) {
                        &&& final(self).view() == (SessionView { phase: Phase::Active, ..v })
                        &&& r@ == completion(v)
                    } else {
                        &&& final(self).view() == v
                        &&& r@ == Seq::<Action>::empty()
                    }
                },
                ControlMsg::PairCancel { reason } => {
                    &&& final(self).view() == (SessionView { phase: Phase::Closed, ..old(self).view() })
                    &&& r@ == seq![
                        Action::PairingResult { ok: false },
                        Action::End(EndReason::PeerCancelledPairing(reason)),
                    ]
                },
                _ => {
                    &&& final(self).view() == (SessionView { phase: Phase::Closed, ..old(self).view() })
                    &&& r@ == seq![Action::End(EndReason::UnexpectedDuringPairing)]
                },
            },
            old(self).view().phase == Phase::Active ==> match msg {
                ControlMsg::StartMirror { epoch } => {
                    &&& final(self).view() == old(self).view()
                    &&& r@ == seq![Action::StartViewing { epoch }, Action::Status(Note::Viewing)]
                },
                ControlMsg::StopMirror => {
                    &&& final(self).view() == old(self).view()
                    &&& r@ == seq![Action::StopViewing]
                },
                ControlMsg::SetMode { mode } => {
                    &&& final(self).view() == old(self).view()
                    &&& if old(self).view().role is Controlled {
                        &&& r@.len() == 1
                        &&& r@[0] matches Action::Send(ControlMsg::ModeAck { mode: m, ok, reason })
                            && m == mode && ok && reason@ == Seq::<char>::empty()
                    } else {
                        r@ == Seq::<Action>::empty()
                    }
                },
                ControlMsg::RealtimeOpen { udp_port, epoch } => {
                    &&& final(self).view() == old(self).view()
                    &&& r@ == if old(self).view().role is Controlled {
                        seq![Action::OpenInbound { epoch }]
                    } else {
                        Seq::<Action>::empty()
                    }
                },
                ControlMsg::EdgeEnter { x_bits, y_bits } => {
                    &&& final(self).view() == old(self).view()
                    &&& r@ == if old(self).view().role is Controlled {
                        seq![Action::SetCursor { x_bits, y_bits }]
                    } else {
                        Seq::<Action>::empty()
                    }
                },
                ControlMsg::Clipboard(ClipboardData::Text(text)) => {
                    &&& final(self).view() == old(self).view()
                    &&& r@ == seq![Action::ApplyClipboard(text)]
                },
                ControlMsg::Ping { nonce } => {
                    &&& final(self).view() == old(self).view()
                    &&& r@ == seq![Action::Send(ControlMsg::Pong { nonce })]
                },
                ControlMsg::Pong { nonce } => if old(self).view().outstanding.contains(nonce) {
                    &&& final(self).view() == (SessionView {
                        outstanding: remove_first(old(self).view().outstanding, nonce),
                        ..old(self).view()
                    })
                    &&& r@ == seq![Action::RecordRtt { nonce }]
                } else {
                    &&& final(self).view() == old(self).view()
                    &&& r@ == Seq::<Action>::empty()
                },
                ControlMsg::Reject { reason } => {
                    &&& final(self).view() == (SessionView { phase: Phase::Closed, ..old(self).view() })
                    &&& r@ == shutdown(EndReason::PeerRejected(reason))
                },
                _ => {
                    &&& final(self).view() == old(self).view()
                    &&& r@ == Seq::<Action>::empty()
                },
            },
    {
        let mut r: Vec<Action> = Vec::new();
        if self.phase == Phase::Pairing {
            match msg {
                ControlMsg::PairBegin => {},
                ControlMsg::PairConfirm => {
                    self.pairing.confirm_remote();
                    self.complete_if_confirmed(&mut r);
                },
                ControlMsg::PairCancel { reason } => {
                    self.phase = Phase::Closed;
                    r.push(Action::PairingResult { ok: false });
                    r.push(Action::End(EndReason::PeerCancelledPairing(reason)));
                },
                _ => {
                    self.phase = Phase::Closed;
                    r.push(Action::End(EndReason::UnexpectedDuringPairing));
                },
            }
            return r;
        }
        let controlled = match self.role {
            Role::Controlled => true,
            Role::Controller { .. } => false,
        };
        match msg {
            ControlMsg::StartMirror { epoch } => {
                r.push(Action::StartViewing { epoch });
                r.push(Action::Status(Note::Viewing));
            },
            ControlMsg::StopMirror => {
                r.push(Action::StopViewing);
            },
            ControlMsg::SetMode { mode } => {
                if controlled {
                    r.push(Action::Send(ControlMsg::ModeAck { mode, ok: true, reason: String::new() }));
                }
            },
            ControlMsg::RealtimeOpen { udp_port, epoch } => {
                if controlled {
                    r.push(Action::OpenInbound { epoch });
                }
            },
            ControlMsg::EdgeEnter { x_bits, y_bits } => {
                if controlled {
                    r.push(Action::SetCursor { x_bits, y_bits });
                }
            },
            ControlMsg::Clipboard(ClipboardData::Text(text)) => {
                r.push(Action::ApplyClipboard(text));
            },
            ControlMsg::Ping { nonce } => {
                r.push(Action::Send(ControlMsg::Pong { nonce }));
            },
            ControlMsg::Pong { nonce } => {
                match first_position(&self.outstanding, nonce) {
                    Some(i) => {
                        proof {
                            lemma_remove_first_at(self.outstanding@, nonce, i as int);
                        }
                        self.outstanding.remove(i);
                        r.push(Action::RecordRtt { nonce });
                    },
                    None => {},
                }
            },
            ControlMsg::Reject { reason } => {
                self.phase = Phase::Closed;
                r.push(Action::Teardown);
                r.push(Action::PeerState(ConnState::Disconnected));
                r.push(Action::End(EndReason::PeerRejected(reason)));
            },
            _ => {},
        }
        r
    }

    /// Handle a local command.
    ///
    /// While pairing: the user's confirmation is sent to the peer and counts
    /// toward completing pairing; a cancel or disconnect ends the session. Once
    /// active: disconnect ends it; snap-home and edge changes go to the host
    /// input of a controlling session; screen sharing starts once and stops on
    /// request.
    pub fn on_command(&mut self, cmd: SessionCmd) -> (r: Vec<Action>)
        requires
            old(self).wf(),
            old(self).view().phase == Phase::Pairing || old(self).view().phase == Phase::Active,
        ensures
            final(self).wf(),
            old(self).view().phase != Phase::Active && final(self).view().phase == Phase::Active
                ==> (old(self).view().role matches Role::Controller { edge, epoch } ==> {
                &&& r@.contains(Action::Send(ControlMsg::SetMode { mode: Mode::Control }))
                &&& r@.contains(
                    Action::Send(
                        ControlMsg::RealtimeOpen { udp_port: old(self).view().realtime_port, epoch },
                    ),
                )
                &&& r@.contains(Action::StartHostInput { edge, epoch })
            }),
            guarded(r@, final(self).view()),
            old(self).view().phase == Phase::Pairing ==> match cmd {
                SessionCmd::Confirm => {
                    let v = SessionView {
                        pairing: PairingState { local_confirmed: true, ..old(self).view().pairing },
                        ..old(self).view()
                    };
                    if authorized(v) {
                        &&& final(self).view() == (SessionView { phase: Phase::Active, ..v })
                        &&& r@ == seq![Action::Send(ControlMsg::PairConfirm)] + completion(v)
                    } else {
                        &&& final(self).view() == v
                        &&& r@ == seq![Action::Send(ControlMsg::PairConfirm)]
                    }
                },
                SessionCmd::Cancel | SessionCmd::Disconnect => {
                    &&& final(self).view() == (SessionView { phase: Phase::Closed, ..old(self).view() })
                    &&& r@.len() == 3
                    &&& r@[0] matches Action::Send(ControlMsg::PairCancel { reason }) && reason@
                        == "user cancelled"@
                    &&& r@[1] == Action::PairingResult { ok: false }
                    &&& r@[2] == Action::End(EndReason::LocalCancel)
                },
                _ => {
                    &&& final(self).view() == old(self).view()
                    &&& r@ == Seq::<Action>::empty()
                },
            },
            old(self).view().phase == Phase::Active ==> match cmd {
                SessionCmd::Disconnect => {
                    &&& final(self).view() == (SessionView { phase: Phase::Closed, ..old(self).view() })
                    &&& r@ == shutdown(EndReason::LocalDisconnect)
                },
                SessionCmd::SnapHome => {
                    &&& final(self).view() == old(self).view()
                    &&& r@ == if old(self).view().role is Controller {
                        seq![Action::SnapHome]
                    } else {
                        Seq::<Action>::empty()
                    }
                },
                SessionCmd::SetEdge(edge) => {
                    &&& final(self).view() == old(self).view()
                    &&& r@ == if old(self).view().role is Controller {
                        seq![Action::SetHostEdge(edge)]
                    } else {
                        Seq::<Action>::empty()
                    }
                },
                SessionCmd::StartMirror { epoch } => if old(self).view().sharing {
                    &&& final(self).view() == old(self).view()
                    &&& r@ == Seq::<Action>::empty()
                } else {
                    &&& final(self).view() == (SessionView { sharing: true, ..old(self).view() })
                    &&& r@ == seq![
                        Action::Send(ControlMsg::StartMirror { epoch }),
                        Action::StartSharing { epoch },
                        Action::Status(Note::Sharing),
                    ]
                },
                SessionCmd::StopMirror => {
                    &&& final(self).view() == (SessionView { sharing: false, ..old(self).view() })
                    &&& r@ == if old(self).view().sharing {
                        seq![Action::StopSharing, Action::Send(ControlMsg::StopMirror)]
                    } else {
                        seq![Action::Send(ControlMsg::StopMirror)]
                    }
                },
                _ => {
                    &&& final(self).view() == old(self).view()
                    &&& r@ == Seq::<Action>::empty()
                },
            },
    {
        proof {
            reveal_strlit("user cancelled");
        }
        let mut r: Vec<Action> = Vec::new();
        let controller = match self.role {
            Role::Controller { .. } => true,
            Role::Controlled => false,
        };
        if self.phase == Phase::Pairing {
            match cmd {
                SessionCmd::Confirm => {
                    self.pairing.confirm_local();
                    r.push(Action::Send(ControlMsg::PairConfirm));
                    self.complete_if_confirmed(&mut r);
                },
                SessionCmd::Cancel | SessionCmd::Disconnect => {
                    self.phase = Phase::Closed;
                    r.push(
                        Action::Send(
                            ControlMsg::PairCancel { reason: String::from_str("user cancelled") },
                        ),
                    );
                    r.push(Action::PairingResult { ok: false });
                    r.push(Action::End(EndReason::LocalCancel));
                },
                _ => {},
            }
            return r;
        }
        match cmd {
            SessionCmd::Disconnect => {
                self.phase = Phase::Closed;
                r.push(Action::Teardown);
                r.push(Action::PeerState(ConnState::Disconnected));
                r.push(Action::End(EndReason::LocalDisconnect));
            },
            SessionCmd::SnapHome => {
                if controller {
                    r.push(Action::SnapHome);
                }
            },
            SessionCmd::SetEdge(edge) => {
                if controller {
                    r.push(Action::SetHostEdge(edge));
                }
            },
            SessionCmd::StartMirror { epoch } => {
                if !self.sharing {
                    self.sharing = true;
                    r.push(Action::Send(ControlMsg::StartMirror { epoch }));
                    r.push(Action::StartSharing { epoch });
                    r.push(Action::Status(Note::Sharing));
                }
            },
            SessionCmd::StopMirror => {
                if self.sharing {
                    r.push(Action::StopSharing);
                }
                self.sharing = false;
                r.push(Action::Send(ControlMsg::StopMirror));
            },
            _ => {},
        }
        r
    }

    /// The keepalive timer fired: send the next ping and remember its nonce.
    pub fn on_ping_tick(&mut self) -> (r: Vec<Action>)
        requires
            old(self).wf(),
            old(self).view().phase == Phase::Active,
        ensures
            final(self).wf(),
            guarded(r@, final(self).view()),
            ({
                let n = if old(self).view().ping_nonce == u64::MAX {
                    0u64
                } else {
                    (old(self).view().ping_nonce + 1) as u64
                };
                &&& final(self).view() == (SessionView {
                    ping_nonce: n,
                    outstanding: old(self).view().outstanding.push(n),
                    ..old(self).view()
                })
                &&& r@ == seq![Action::Send(ControlMsg::Ping { nonce: n })]
            }),
    {
        self.ping_nonce = self.ping_nonce.wrapping_add(1);
        self.outstanding.push(self.ping_nonce);
        let mut r: Vec<Action> = Vec::new();
        r.push(Action::Send(ControlMsg::Ping { nonce: self.ping_nonce }));
        r
    }

    /// The peer closed the connection.
    pub fn on_peer_closed(&mut self) -> (r: Vec<Action>)
        requires
            old(self).wf(),
            old(self).view().phase == Phase::Pairing || old(self).view().phase == Phase::Active,
        ensures
            final(self).wf(),
            final(self).view() == (SessionView { phase: Phase::Closed, ..old(self).view() }),
            r@ == if old(self).view().phase == Phase::Pairing {
                seq![Action::End(EndReason::ClosedDuringPairing)]
            } else {
                shutdown(EndReason::PeerClosed)
            },
    {
        let mut r: Vec<Action> = Vec::new();
        if self.phase == Phase::Pairing {
            r.push(Action::End(EndReason::ClosedDuringPairing));
        } else {
            r.push(Action::Teardown);
            r.push(Action::PeerState(ConnState::Disconnected));
            r.push(Action::End(EndReason::PeerClosed));
        }
        self.phase = Phase::Closed;
        r
    }
}

} // verus!
