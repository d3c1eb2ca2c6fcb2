use screenlink::discovery::{
    classify_error, ipv4_to_text, mdns_host_name, mdns_instance_name, merge_peers,
    reachable_result, str_contains, subnet_check, ConnectFailure, DiscoveredPeer, PeerBook,
    PeerIp, PeerSource, Verdict,
};

fn v4(a: u8, b: u8, c: u8, d: u8) -> PeerIp {
    PeerIp::V4(u32::from_be_bytes([a, b, c, d]))
}

fn peer(name: &str, addrs: Vec<PeerIp>, port: u16, source: PeerSource) -> DiscoveredPeer {
    DiscoveredPeer {
        fingerprint: String::new(),
        name: name.to_string(),
        addrs,
        port,
        source,
    }
}

#[test]
fn primary_addr_prefers_ipv4() {
    let p = peer("a", vec![PeerIp::V6(1), v4(10, 0, 0, 2), v4(10, 0, 0, 3)], 1, PeerSource::Mdns);
    assert_eq!(p.primary_addr(), Some(v4(10, 0, 0, 2)));
    let q = peer("b", vec![PeerIp::V6(7), PeerIp::V6(8)], 1, PeerSource::Mdns);
    assert_eq!(q.primary_addr(), Some(PeerIp::V6(7)));
    let r = peer("c", vec![], 1, PeerSource::Manual);
    assert_eq!(r.primary_addr(), None);
}

#[test]
fn merged_list_is_sorted_by_name() {
    let mdns = vec![
        peer("zeta", vec![v4(10, 0, 0, 1)], 1, PeerSource::Mdns),
        peer("alpha", vec![v4(10, 0, 0, 2)], 1, PeerSource::Mdns),
    ];
    let manual = vec![peer("mid", vec![v4(10, 0, 0, 3)], 1, PeerSource::Manual)];
    let names: Vec<String> = merge_peers(&mdns, &manual).into_iter().map(|p| p.name).collect();
    assert_eq!(names, vec!["alpha", "mid", "zeta"]);
}

#[test]
fn manual_entry_overrides_announced_endpoint() {
    let mdns = vec![peer("Announced", vec![v4(10, 0, 0, 5)], 47820, PeerSource::Mdns)];
    let manual = vec![peer("Typed", vec![v4(10, 0, 0, 5)], 47820, PeerSource::Manual)];
    let out = merge_peers(&mdns, &manual);
    assert_eq!(out.len(), 1);
    assert_eq!(out[0].name, "Typed");
    assert_eq!(out[0].source, PeerSource::Manual);
    // A different port is a different endpoint: both stay.
    let other = vec![peer("Typed", vec![v4(10, 0, 0, 5)], 1, PeerSource::Manual)];
    assert_eq!(merge_peers(&mdns, &other).len(), 2);
}

#[test]
fn first_of_two_manual_entries_for_one_endpoint_is_kept() {
    let mdns = vec![peer("Announced", vec![v4(10, 0, 0, 5)], 47820, PeerSource::Mdns)];
    let manual = vec![
        peer("First", vec![v4(10, 0, 0, 5)], 47820, PeerSource::Manual),
        peer("Second", vec![v4(10, 0, 0, 5)], 47820, PeerSource::Manual),
    ];
    let out = merge_peers(&mdns, &manual);
    assert_eq!(out.len(), 1);
    assert_eq!(out[0].name, "First");
}

#[test]
fn equal_names_keep_their_order() {
    let mdns = vec![
        peer("same", vec![v4(1, 1, 1, 1)], 1, PeerSource::Mdns),
        peer("same", vec![v4(2, 2, 2, 2)], 1, PeerSource::Mdns),
    ];
    let out = merge_peers(&mdns, &vec![]);
    assert_eq!(out[0].addrs, vec![v4(1, 1, 1, 1)]);
    assert_eq!(out[1].addrs, vec![v4(2, 2, 2, 2)]);
}

#[test]
fn peer_book_tracks_announcements() {
    let mut book = PeerBook::new("ourfp".to_string());
    assert_eq!(book.our_fingerprint(), "ourfp");
    // Our own announcement is ignored.
    book.on_resolved("ourfp".into(), Some("Me".into()), "me._screenlink._tcp.local.".into(), vec![], 1);
    assert!(book.peers().is_empty());
    book.on_resolved(
        "fp1".into(),
        None,
        "Desk [fp1]._screenlink._tcp.local.".into(),
        vec![v4(192, 168, 1, 9)],
        47820,
    );
    let ps = book.peers();
    assert_eq!(ps.len(), 1);
    // Without a TXT name the full service name is used.
    assert_eq!(ps[0].name, "Desk [fp1]._screenlink._tcp.local.");
    // A new announcement under the same fingerprint replaces the record.
    book.on_resolved("fp1".into(), Some("Desk".into()), "Desk [fp1]._screenlink._tcp.local.".into(), vec![v4(192, 168, 1, 10)], 47820);
    let ps = book.peers();
    assert_eq!(ps.len(), 1);
    assert_eq!(ps[0].name, "Desk");
    assert_eq!(ps[0].addrs, vec![v4(192, 168, 1, 10)]);
    // Removal matches the peer name inside the service's full name.
    book.on_removed("Desk [fp1]._screenlink._tcp.local.");
    assert!(book.peers().is_empty());
}

#[test]
fn peer_book_merges_manual_peers() {
    let mut book = PeerBook::new("me".to_string());
    book.on_resolved("fpb".into(), Some("B".into()), "b".into(), vec![v4(10, 0, 0, 2)], 1);
    book.set_manual_peers(vec![peer("A", vec![v4(10, 0, 0, 1)], 1, PeerSource::Manual)]);
    let names: Vec<String> = book.peers().into_iter().map(|p| p.name).collect();
    assert_eq!(names, vec!["A", "B"]);
}

#[test]
fn substring_search() {
    assert!(str_contains("Desk [abc]", "Desk"));
    assert!(str_contains("abc", ""));
    assert!(str_contains("abc", "abc"));
    assert!(!str_contains("abc", "abcd"));
    assert!(!str_contains("abc", "cb"));
}

#[test]
fn mdns_names_use_twelve_fingerprint_bytes() {
    let fp = "0123456789abcdef0123";
    assert_eq!(mdns_instance_name("Laptop", fp), "Laptop [0123456789ab]");
    assert_eq!(mdns_host_name(fp), "screenlink-0123456789ab.local.");
    assert_eq!(mdns_host_name("abc"), "screenlink-abc.local.");
}

#[test]
fn ipv4_text_is_dotted_quad() {
    assert_eq!(ipv4_to_text(u32::from_be_bytes([192, 168, 0, 17])), "192.168.0.17");
    assert_eq!(ipv4_to_text(0), "0.0.0.0");
}

#[test]
fn subnet_hint_only_for_different_ipv4_prefixes() {
    let local = Some(v4(192, 168, 1, 5));
    assert!(subnet_check(local, v4(192, 168, 1, 99)).is_none());
    let r = subnet_check(local, v4(192, 168, 2, 99)).unwrap();
    assert_eq!(r.verdict, Verdict::DifferentSubnet);
    assert!(r.message.starts_with("This device (192.168.1.5) and the peer (192.168.2.99) look like"));
    assert!(subnet_check(None, v4(10, 0, 0, 1)).is_none());
    assert!(subnet_check(Some(PeerIp::V6(1)), v4(10, 0, 0, 1)).is_none());
}

#[test]
fn connect_failures_are_diagnosed() {
    assert_eq!(classify_error(ConnectFailure::Refused, "", None).verdict, Verdict::PortClosed);
    assert_eq!(classify_error(ConnectFailure::TimedOut, "", None).verdict, Verdict::Unreachable);
    assert_eq!(classify_error(ConnectFailure::HostUnreachable, "", None).verdict, Verdict::NoRoute);
    let other = classify_error(ConnectFailure::Other, "boom", Some(v4(1, 2, 3, 4)));
    assert_eq!(other.verdict, Verdict::Unreachable);
    assert_eq!(other.message, "Could not reach the peer: boom");
    assert_eq!(other.local_ip, Some(v4(1, 2, 3, 4)));
    assert_eq!(reachable_result(None).verdict, Verdict::Reachable);
}
