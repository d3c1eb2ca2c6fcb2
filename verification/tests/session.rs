use screenlink::clipboard::{observe_local_text, ClipCmd, ClipboardManager};
use screenlink::loopback::LoopbackReport;
use screenlink::protocol::{
    Capabilities, ControlMsg, DeviceId, DeviceInfo, InputEvent, Key, MouseButton, PROTOCOL_VERSION,
};
use screenlink::session::{routes_to, Action, ConnState, Phase, Role, Session, SessionCmd};
use screenlink::trust::TrustStore;

fn hello(fp: &str) -> ControlMsg {
    ControlMsg::Hello {
        protocol: PROTOCOL_VERSION,
        info: DeviceInfo {
            id: DeviceId(fp.to_string()),
            name: "Peer".to_string(),
            os: "linux".to_string(),
            realtime_port: 47821,
            caps: Capabilities::default(),
        },
    }
}

#[test]
fn untrusted_peer_must_pair() {
    let store = TrustStore::in_memory();
    let mut s = Session::new(Role::Controlled, "aa".to_string(), 47821);
    let acts = s.on_hello(hello("bb"), &store);
    assert_eq!(s.phase(), Phase::Pairing);
    assert!(acts.contains(&Action::PeerState(ConnState::Pairing)));
    assert!(acts.iter().any(|a| matches!(a, Action::PairingPrompt { .. })));
    // No input is injected before pairing completes.
    let early = s.on_message(ControlMsg::EdgeEnter { x_bits: 0, y_bits: 0 });
    assert!(!early.iter().any(|a| matches!(a, Action::SetCursor { .. })));
}

#[test]
fn trusted_peer_goes_active() {
    let mut store = TrustStore::in_memory();
    store.trust("bb", "Peer");
    let mut s = Session::new(Role::Controlled, "aa".to_string(), 47821);
    let _ = s.on_hello(hello("bb"), &store);
    assert_eq!(s.phase(), Phase::Active);
    assert_eq!(s.peer_fingerprint(), "bb");
    assert_eq!(s.peer_name(), "Peer");
}

#[test]
fn version_mismatch_is_rejected() {
    let store = TrustStore::in_memory();
    let mut s = Session::new(Role::Controlled, "aa".to_string(), 47821);
    let msg = match hello("bb") {
        ControlMsg::Hello { info, .. } => ControlMsg::Hello { protocol: PROTOCOL_VERSION + 1, info },
        other => other,
    };
    let acts = s.on_hello(msg, &store);
    assert_eq!(s.phase(), Phase::Closed);
    assert!(acts.iter().any(|a| matches!(a, Action::Send(ControlMsg::Reject { .. }))));
}

#[test]
fn commands_route_by_fingerprint() {
    assert!(routes_to(&Some("fp".to_string()), "fp"));
    assert!(!routes_to(&Some("fp".to_string()), "other"));
    assert!(routes_to(&None, ""));
    assert!(routes_to(&Some("fp".to_string()), ""));
    assert!(!routes_to(&None, "fp"));
}

// ---- clipboard ----

#[test]
fn apply_then_poll_does_not_echo() {
    let Ok(mut m) = ClipboardManager::new() else {
        println!("no clipboard available; skipping");
        return;
    };
    if m.apply_remote("screenlink-test-value").is_err() {
        println!("clipboard write unavailable; skipping");
        return;
    }
    assert_eq!(m.poll_local_change(), None);
}

#[test]
fn echo_filter_reports_only_new_text() {
    let mut last = None;
    assert_eq!(observe_local_text(&mut last, String::new()), None);
    assert_eq!(observe_local_text(&mut last, "a".into()), Some("a".to_string()));
    assert_eq!(last.as_deref(), Some("a"));
    assert_eq!(observe_local_text(&mut last, "a".into()), None);
    assert_eq!(observe_local_text(&mut last, "b".into()), Some("b".to_string()));
    let _ = ClipCmd::ApplyRemote("x".into());
}

// ---- loopback verdict ----

#[test]
fn loopback_passes_only_with_all_event_kinds_and_mutual_trust() {
    let full = LoopbackReport {
        injected: vec![
            InputEvent::MouseMoveAbs { x_bits: 0, y_bits: 0 },
            InputEvent::MouseButton { button: MouseButton::Left, pressed: true },
            InputEvent::Key { key: Key::A, pressed: true },
        ],
        cursor_sets: 1,
        a_trusts_b: true,
        b_trusts_a: true,
    };
    assert!(full.passed());
    let mut no_press = full.clone();
    no_press.injected[1] = InputEvent::MouseButton { button: MouseButton::Left, pressed: false };
    assert!(!no_press.passed());
    let mut one_way = full.clone();
    one_way.b_trusts_a = false;
    assert!(!one_way.passed());
}

#[test]
fn pairing_completes_after_both_confirmations() {
    let store = TrustStore::in_memory();
    let mut s = Session::new(Role::Controlled, "aa".to_string(), 47821);
    let _ = s.on_hello(hello("bb"), &store);
    let local = s.on_command(SessionCmd::Confirm);
    assert!(local.contains(&Action::Send(ControlMsg::PairConfirm)));
    assert_eq!(s.phase(), Phase::Pairing);
    let done = s.on_message(ControlMsg::PairConfirm);
    assert_eq!(s.phase(), Phase::Active);
    assert_eq!(done[0], Action::TrustPeer);
    assert!(done.contains(&Action::StartClipboard));
    assert!(done.contains(&Action::PeerState(ConnState::Connected { controlling: false })));
}

#[test]
fn pings_are_answered_and_pongs_recorded_once() {
    let mut store = TrustStore::in_memory();
    store.trust("bb", "Peer");
    let mut s = Session::new(
        Role::Controller { edge: screenlink::protocol::ScreenEdge::Right, epoch: 7 },
        "aa".to_string(),
        47821,
    );
    let start = s.on_hello(hello("bb"), &store);
    assert!(start.contains(&Action::StartHostInput { edge: screenlink::protocol::ScreenEdge::Right, epoch: 7 }));
    assert_eq!(
        s.on_message(ControlMsg::Ping { nonce: 5 }),
        vec![Action::Send(ControlMsg::Pong { nonce: 5 })]
    );
    let tick = s.on_ping_tick();
    assert_eq!(tick, vec![Action::Send(ControlMsg::Ping { nonce: 1 })]);
    assert_eq!(s.on_message(ControlMsg::Pong { nonce: 1 }), vec![Action::RecordRtt { nonce: 1 }]);
    assert!(s.on_message(ControlMsg::Pong { nonce: 1 }).is_empty());
}
