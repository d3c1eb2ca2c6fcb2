use screenlink::config::{choose_device_name, AppConfig, PeerConfig};
use screenlink::error::{CoreError, CryptoError};
use screenlink::framing::{decode_frame, encode_frame, frame_len, MAX_FRAME_LEN};
use screenlink::pairing::{comparison_pin, PairingState};
use screenlink::protocol::{DeviceId, Mode, ScreenEdge};
use screenlink::realtime::RealtimeCrypto;
use screenlink::replay::ReplayWindow;
use screenlink::security::{check_peer, fingerprint_hex, Identity, VerifyMode};
use screenlink::trust::{TrustStore, TrustedDevice};
use std::sync::Arc;

// ---- pairing ----

#[test]
fn pin_is_six_digits() {
    let pin = comparison_pin("aa", "bb");
    assert_eq!(pin.len(), 6);
    assert!(pin.chars().all(|c| c.is_ascii_digit()));
}

#[test]
fn pin_is_order_independent() {
    assert_eq!(comparison_pin("abc", "xyz"), comparison_pin("xyz", "abc"));
}

#[test]
fn pin_differs_for_different_pairs() {
    assert_ne!(comparison_pin("aaa", "bbb"), comparison_pin("aaa", "ccc"));
}

#[test]
fn pairing_completes_only_when_both_confirm() {
    let mut s = PairingState::default();
    assert!(!s.is_complete());
    s.confirm_local();
    assert!(!s.is_complete());
    s.confirm_remote();
    assert!(s.is_complete());
}

#[test]
fn pairing_remote_first_still_needs_local() {
    let mut s = PairingState::new();
    s.confirm_remote();
    assert!(!s.is_complete());
    s.confirm_local();
    assert!(s.is_complete());
}

#[test]
fn pin_of_same_pair_is_stable() {
    let a = comparison_pin("0011aabb", "ffee2233");
    let b = comparison_pin("0011aabb", "ffee2233");
    assert_eq!(a, b);
    assert_eq!(a.len(), 6);
}

// ---- protocol ----

#[test]
fn device_id_short_is_truncated() {
    let id = DeviceId("abcdef0123456789".into());
    assert_eq!(id.short(), "abcdef01");
}

#[test]
fn device_id_short_handles_tiny() {
    let id = DeviceId("ab".into());
    assert_eq!(id.short(), "ab");
}

#[test]
fn device_id_short_of_exactly_eight() {
    let id = DeviceId("01234567".into());
    assert_eq!(id.short(), "01234567");
}

#[test]
fn edge_opposite_roundtrips() {
    for e in [
        ScreenEdge::Left,
        ScreenEdge::Right,
        ScreenEdge::Top,
        ScreenEdge::Bottom,
    ] {
        assert_eq!(e.opposite().opposite(), e);
    }
}

#[test]
fn edge_opposite_pairs() {
    assert_eq!(ScreenEdge::Left.opposite(), ScreenEdge::Right);
    assert_eq!(ScreenEdge::Top.opposite(), ScreenEdge::Bottom);
}

// ---- realtime ----

fn pair() -> (RealtimeCrypto, RealtimeCrypto) {
    let key = [7u8; 32];
    (
        RealtimeCrypto::new(key, 1, true),
        RealtimeCrypto::new(key, 1, false),
    )
}

#[test]
fn seal_open_roundtrip() {
    let (mut host, mut client) = pair();
    let pkt = host.seal(b"hello input").unwrap();
    let (seq, pt) = client.open(&pkt).unwrap();
    assert_eq!(seq, 0);
    assert_eq!(pt, b"hello input");
}

#[test]
fn tampered_packet_is_rejected() {
    let (mut host, mut client) = pair();
    let mut pkt = host.seal(b"abc").unwrap();
    let last = pkt.len() - 1;
    pkt[last] ^= 0xff;
    assert!(client.open(&pkt).is_err());
}

#[test]
fn replay_is_rejected() {
    let (mut host, mut client) = pair();
    let pkt = host.seal(b"x").unwrap();
    assert!(client.open(&pkt).is_ok());
    assert!(
        client.open(&pkt).is_err(),
        "second delivery must be rejected"
    );
}

#[test]
fn wrong_epoch_fails_auth() {
    let key = [9u8; 32];
    let mut host = RealtimeCrypto::new(key, 1, true);
    let mut client = RealtimeCrypto::new(key, 2, false);
    let pkt = host.seal(b"x").unwrap();
    assert!(client.open(&pkt).is_err());
}

#[test]
fn sealed_packet_is_header_ciphertext_and_tag() {
    let (mut host, _) = pair();
    let pkt = host.seal(b"hello").unwrap();
    // 8-byte big-endian sequence number, then the ciphertext and 16-byte tag.
    assert_eq!(pkt.len(), 8 + 5 + 16);
    assert_eq!(&pkt[..8], &[0, 0, 0, 0, 0, 0, 0, 0]);
    // The ciphertext is not the plaintext.
    assert_ne!(&pkt[8..13], b"hello");
    let pkt2 = host.seal(b"hello").unwrap();
    assert_eq!(&pkt2[..8], &[0, 0, 0, 0, 0, 0, 0, 1]);
}

#[test]
fn short_packet_is_refused() {
    let (_, mut client) = pair();
    assert_eq!(
        client.open(&[1, 2, 3]),
        Err(CoreError::Crypto(CryptoError::ShortPacket))
    );
}

#[test]
fn replayed_packet_reports_its_sequence() {
    let (mut host, mut client) = pair();
    let _ = host.seal(b"a").unwrap();
    let pkt = host.seal(b"b").unwrap();
    assert_eq!(client.open(&pkt).unwrap().0, 1);
    assert_eq!(
        client.open(&pkt),
        Err(CoreError::Crypto(CryptoError::Replay { seq: 1 }))
    );
}

#[test]
fn reply_direction_uses_its_own_nonces() {
    let (mut host, mut client) = pair();
    // Each side can send to the other under the one shared key.
    let up = host.seal(b"to client").unwrap();
    let down = client.seal(b"to host").unwrap();
    assert_eq!(client.open(&up).unwrap().1, b"to client");
    assert_eq!(host.open(&down).unwrap().1, b"to host");
    // A packet does not open on the side that sealed it.
    let mut host2 = RealtimeCrypto::new([7u8; 32], 1, true);
    let again = host2.seal(b"to client").unwrap();
    assert!(host2.open(&again).is_err());
}

#[test]
fn replay_window_accepts_reordering_within_window() {
    let mut w = ReplayWindow::default();
    assert!(w.accept(10));
    assert!(w.accept(12));
    assert!(w.accept(11));
    assert!(!w.accept(12));
    assert!(!w.accept(10));
}

#[test]
fn replay_window_rejects_ancient() {
    let mut w = ReplayWindow::default();
    assert!(w.accept(1000));
    assert!(!w.accept(1));
}

#[test]
fn replay_window_edge_of_window() {
    let mut w = ReplayWindow::new();
    assert!(w.accept(64));
    // 64 behind the newest is outside a 64-wide window; 63 behind is inside.
    assert!(!w.accept(0));
    assert!(w.accept(1));
    assert!(!w.accept(1));
}

// ---- trust ----

#[test]
fn trust_revoke_roundtrip() {
    let mut s = TrustStore::in_memory();
    assert!(!s.is_trusted("aa"));
    s.trust("aa", "Laptop A");
    assert!(s.is_trusted("aa"));
    assert_eq!(s.get("aa").unwrap().name, "Laptop A");
    assert_eq!(s.list().len(), 1);
    s.revoke("aa");
    assert!(!s.is_trusted("aa"));
}

#[test]
fn trusting_again_renames() {
    let mut s = TrustStore::in_memory();
    s.trust("aa", "Old");
    s.trust("aa", "New");
    assert_eq!(s.list().len(), 1);
    assert_eq!(s.get("aa").unwrap().name, "New");
}

#[test]
fn store_from_devices_keeps_last_duplicate() {
    let s = TrustStore::from_devices(vec![
        TrustedDevice {
            fingerprint: "f1".into(),
            name: "one".into(),
        },
        TrustedDevice {
            fingerprint: "f2".into(),
            name: "two".into(),
        },
        TrustedDevice {
            fingerprint: "f1".into(),
            name: "uno".into(),
        },
    ]);
    assert_eq!(s.list().len(), 2);
    assert_eq!(s.get("f1").unwrap().name, "uno");
    assert!(s.is_trusted("f2"));
    assert!(s.get("f3").is_none());
}

// ---- config ----

#[test]
fn upsert_replaces_existing_peer() {
    let mut cfg = AppConfig::new("ScreenLink device".to_string());
    cfg.upsert_peer(PeerConfig {
        fingerprint: "fp1".into(),
        name: "A".into(),
        edge: ScreenEdge::Right,
        offset_bits: 0.0f32.to_bits(),
        mode: Mode::Control,
    });
    cfg.upsert_peer(PeerConfig {
        fingerprint: "fp1".into(),
        name: "A renamed".into(),
        edge: ScreenEdge::Left,
        offset_bits: 0.5f32.to_bits(),
        mode: Mode::Extend,
    });
    assert_eq!(cfg.peers.len(), 1);
    let p = cfg.peer("fp1").unwrap();
    assert_eq!(p.name, "A renamed");
    assert_eq!(p.edge, ScreenEdge::Left);
    assert_eq!(p.mode, Mode::Extend);
}

#[test]
fn upsert_appends_new_peer() {
    let mut cfg = AppConfig::new("me".to_string());
    assert_eq!(cfg.control_port, screenlink::DEFAULT_CONTROL_PORT);
    assert_eq!(cfg.realtime_port, screenlink::DEFAULT_REALTIME_PORT);
    assert_eq!(cfg.snap_home_hotkey, "Ctrl+Alt+Home");
    cfg.upsert_peer(PeerConfig {
        fingerprint: "a".into(),
        name: "A".into(),
        edge: ScreenEdge::Right,
        offset_bits: 0,
        mode: Mode::Control,
    });
    cfg.upsert_peer(PeerConfig {
        fingerprint: "b".into(),
        name: "B".into(),
        edge: ScreenEdge::Top,
        offset_bits: 0,
        mode: Mode::Control,
    });
    assert_eq!(cfg.peers.len(), 2);
    assert_eq!(cfg.peer("b").unwrap().edge, ScreenEdge::Top);
    assert!(cfg.peer("c").is_none());
}

#[test]
fn device_name_prefers_computername_then_hostname() {
    assert_eq!(
        choose_device_name(Some("PC".into()), Some("host".into())),
        "PC"
    );
    assert_eq!(choose_device_name(None, Some("host".into())), "host");
    // An empty COMPUTERNAME is taken (and then refused as empty), not skipped.
    assert_eq!(
        choose_device_name(Some(String::new()), Some("host".into())),
        "ScreenLink device"
    );
    assert_eq!(choose_device_name(None, None), "ScreenLink device");
}

// ---- framing ----

#[test]
fn frame_is_length_prefixed() {
    let f = encode_frame(b"abc").unwrap();
    assert_eq!(f, vec![0, 0, 0, 3, b'a', b'b', b'c']);
    assert_eq!(frame_len([0, 0, 0, 3]).unwrap(), 3);
}

#[test]
fn frame_roundtrips_and_reports_consumed() {
    let mut buf = encode_frame(b"hello").unwrap();
    buf.extend_from_slice(&encode_frame(b"").unwrap());
    let (body, used) = decode_frame(&buf).unwrap().unwrap();
    assert_eq!(body, b"hello");
    assert_eq!(used, 9);
    let (body2, used2) = decode_frame(&buf[used..]).unwrap().unwrap();
    assert!(body2.is_empty());
    assert_eq!(used2, 4);
}

#[test]
fn partial_frame_waits_for_more() {
    let buf = encode_frame(b"hello").unwrap();
    assert_eq!(decode_frame(&buf[..2]).unwrap(), None);
    assert_eq!(decode_frame(&buf[..6]).unwrap(), None);
}

#[test]
fn oversized_frame_header_is_refused() {
    let n = (MAX_FRAME_LEN + 1) as u32;
    let hdr = n.to_be_bytes();
    assert_eq!(
        frame_len(hdr),
        Err(CoreError::FrameTooLarge(MAX_FRAME_LEN + 1, MAX_FRAME_LEN))
    );
    assert!(decode_frame(&hdr).is_err());
}

// ---- security ----

#[test]
fn identity_fingerprint_is_stable_and_64_hex() {
    let id = Identity::generate().unwrap();
    assert_eq!(id.fingerprint().len(), 64);
    assert!(id.fingerprint().bytes().all(|b| b.is_ascii_hexdigit()));
    assert_eq!(fingerprint_hex(&id.cert_der()), id.fingerprint());
}

#[test]
fn distinct_identities_have_distinct_fingerprints() {
    let a = Identity::generate().unwrap();
    let b = Identity::generate().unwrap();
    assert_ne!(a.fingerprint(), b.fingerprint());
}

#[test]
fn fingerprint_is_sha256_hex() {
    // SHA-256 of the empty string.
    assert_eq!(
        fingerprint_hex(b""),
        "e3b0c44298fc1c149afbf4c8996fb92427ae41e4649b934ca495991b7852b855"
    );
    assert_eq!(
        fingerprint_hex(b"abc"),
        "ba7816bf8f01cfea414140de5dae2223b00361a396177a9cb410ff61f20015ad"
    );
}

#[test]
fn identity_from_stored_der_recomputes_fingerprint() {
    let id = Identity::from_der(b"abc".to_vec(), vec![1, 2, 3]);
    assert_eq!(
        id.fingerprint(),
        "ba7816bf8f01cfea414140de5dae2223b00361a396177a9cb410ff61f20015ad"
    );
    assert_eq!(id.device_id().0, id.fingerprint());
    assert_eq!(id.key_der(), vec![1, 2, 3]);
    assert_eq!(id.clone().cert_der(), b"abc".to_vec());
}

#[test]
fn pinned_verifier_policy() {
    let cert = b"peer certificate".to_vec();
    let fp = fingerprint_hex(&cert);
    let tofu = check_peer(&VerifyMode::PairTofu, &cert);
    assert!(tofu.accepted);
    assert_eq!(tofu.fingerprint, fp);

    let empty = TrustStore::in_memory();
    let strict = check_peer(&VerifyMode::RequireTrusted(Arc::new(empty)), &cert);
    assert!(!strict.accepted);
    let mut store = TrustStore::in_memory();
    store.trust(&fp, "Peer");
    let strict = check_peer(&VerifyMode::RequireTrusted(Arc::new(store)), &cert);
    assert!(strict.accepted);
}

#[test]
fn peer_mut_edits_in_place() {
    let mut cfg = AppConfig::new("me".to_string());
    cfg.upsert_peer(PeerConfig {
        fingerprint: "a".into(),
        name: "A".into(),
        edge: ScreenEdge::Right,
        offset_bits: 0,
        mode: Mode::Control,
    });
    if let Some(p) = cfg.peer_mut("a") {
        p.edge = ScreenEdge::Bottom;
    }
    assert_eq!(cfg.peer("a").unwrap().edge, ScreenEdge::Bottom);
    assert!(cfg.peer_mut("zz").is_none());
    assert_eq!(cfg.peers.len(), 1);
}
