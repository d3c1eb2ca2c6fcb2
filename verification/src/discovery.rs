//! LAN peer discovery: the peer records, how mDNS announcements and manual
//! entries combine into the list the UI shows, and the connectivity self-test's
//! diagnosis.
//!
//! The mDNS daemon, its browse thread and the probing sockets live in `app/`;
//! they hand the events and outcomes to the functions here.

use vstd::prelude::*;
use crate::bytes::{ascii_chars, bytes_le, dec, decimal_string, lex_le};
use crate::protocol::utf8_bytes;
use vstd::string::StringSliceAdditionalSpecFns;
use vstd::utf8::{decode_utf8, is_char_boundary};

verus! {

/// An IP address: IPv4 as its 32-bit big-endian value, IPv6 as its 128-bit one.
#[derive(Clone, Copy, Debug, PartialEq, Eq, Hash, Structural)]
pub enum PeerIp {
    V4(u32),
    V6(u128),
}

/// Where a peer record came from.
#[derive(Clone, Copy, Debug, PartialEq, Eq, Structural)]
pub enum PeerSource {
    Mdns,
    Manual,
}

/// A peer learned via mDNS or entered by hand.
#[derive(Debug, PartialEq, Eq)]
pub struct DiscoveredPeer {
    /// Certificate fingerprint advertised in TXT (empty for manual peers until
    /// the TLS handshake reveals it).
    pub fingerprint: String,
    pub name: String,
    pub addrs: Vec<PeerIp>,
    pub port: u16,
    pub source: PeerSource,
}

/// The mathematical content of a peer record.
pub struct PeerView {
    pub fingerprint: Seq<char>,
    pub name: Seq<char>,
    pub addrs: Seq<PeerIp>,
    pub port: u16,
    pub source: PeerSource,
}

impl View for DiscoveredPeer {
    type V = PeerView;

    open spec fn view(&self) -> PeerView {
        PeerView {
            fingerprint: self.fingerprint@,
            name: self.name@,
            addrs: self.addrs@,
            port: self.port,
            source: self.source,
        }
    }
}

impl Clone for DiscoveredPeer {
    fn clone(&self) -> (r: Self)
        ensures
            r@ == self@,
    {
        DiscoveredPeer {
            fingerprint: self.fingerprint.clone(),
            name: self.name.clone(),
            addrs: self.addrs.clone(),
            port: self.port,
            source: self.source,
        }
    }
}

/// The index of the first IPv4 address, if any.
pub open spec fn first_v4(addrs: Seq<PeerIp>) -> Option<int>
    decreases addrs.len(),
{
    if addrs.len() == 0 {
        None
    } else if addrs[0] is V4 {
        Some(0)
    } else {
        match first_v4(addrs.drop_first()) {
            Some(i) => Some(i + 1),
            None => None,
        }
    }
}

/// The address to dial: the first IPv4 one, else the first of any kind.
pub open spec fn primary_addr_of(addrs: Seq<PeerIp>) -> Option<PeerIp> {
    match first_v4(addrs) {
        Some(i) => Some(addrs[i]),
        None => if addrs.len() > 0 {
            Some(addrs[0])
        } else {
            None
        },
    }
}

proof fn lemma_first_v4(addrs: Seq<PeerIp>, k: int)
    requires
        0 <= k <= addrs.len(),
        forall|j: int| 0 <= j < k ==> !(#[trigger] addrs[j] is V4),
    ensures
        first_v4(addrs) == (match first_v4(addrs.skip(k)) {
            Some(i) => Some(i + k),
            None => None::<int>,
        }),
    decreases k,
{
    if k > 0 {
        lemma_first_v4(addrs.drop_first(), k - 1);
        assert(addrs.drop_first().skip(k - 1) =~= addrs.skip(k));
    } else {
        assert(addrs.skip(0) =~= addrs);
    }
}

impl DiscoveredPeer {
    /// Best address to dial: prefer IPv4, then any.
    pub fn primary_addr(&self) -> (r: Option<PeerIp>)
        ensures
            r == primary_addr_of(self.addrs@),
    {
        let mut i: usize = 0;
        while i < self.addrs.len()
            invariant
                0 <= i <= self.addrs@.len(),
                forall|j: int| 0 <= j < i ==> !(#[trigger] self.addrs@[j] is V4),
            decreases self.addrs@.len() - i,
        {
            if let PeerIp::V4(_) = self.addrs[i] {
                proof {
                    lemma_first_v4(self.addrs@, i as int);
                    assert(self.addrs@.skip(i as int)[0] == self.addrs@[i as int]);
                }
                return Some(self.addrs[i]);
            }
            i = i + 1;
        }
        proof {
            lemma_first_v4(self.addrs@, i as int);
            assert(self.addrs@.skip(i as int).len() == 0);
        }
        if self.addrs.len() > 0 {
            Some(self.addrs[0])
        } else {
            None
        }
    }
}

/// How many bytes of the fingerprint the mDNS names keep: at most twelve.
pub open spec fn mdns_short_len(byte_len: nat) -> nat {
    if byte_len < 12 {
        byte_len
    } else {
        12
    }
}

/// The fingerprint prefix the mDNS names use: its first (at most) twelve bytes.
pub open spec fn mdns_short(fingerprint: Seq<char>) -> Seq<char> {
    decode_utf8(
        utf8_bytes(fingerprint).subrange(0, mdns_short_len(utf8_bytes(fingerprint).len()) as int),
    )
}

/// The fingerprint can be cut after its first (at most) twelve bytes.
pub open spec fn mdns_short_ok(fingerprint: Seq<char>) -> bool {
    &&& utf8_bytes(fingerprint).len() <= usize::MAX
    &&& is_char_boundary(utf8_bytes(fingerprint), mdns_short_len(utf8_bytes(fingerprint).len()) as int)
}

fn short_prefix(fingerprint: &str) -> (r: &str)
    requires
        mdns_short_ok(fingerprint@),
    ensures
        r@ == mdns_short(fingerprint@),
{
    let n: usize = if fingerprint.len() < 12 { fingerprint.len() } else { 12 };
    assert(fingerprint.spec_bytes() == utf8_bytes(fingerprint@));
    let (head, _tail) = fingerprint.split_at(n);
    proof {
        broadcast use vstd::utf8::encode_utf8_decode_utf8;
        assert(head.spec_bytes() == utf8_bytes(head@));
    }
    head
}

/// The mDNS instance name: the device name and the short fingerprint, which
/// keeps it unique when two devices share a friendly name.
pub fn mdns_instance_name(device_name: &str, fingerprint: &str) -> (r: String)
    requires
        mdns_short_ok(fingerprint@),
    ensures
        r@ == device_name@ + " ["@ + mdns_short(fingerprint@) + "]"@,
{
    let mut s = String::from_str(device_name);
    s.append(" [");
    s.append(short_prefix(fingerprint));
    s.append("]");
    s
}

/// The mDNS host name: `screenlink-<short fingerprint>.local.`.
pub fn mdns_host_name(fingerprint: &str) -> (r: String)
    requires
        mdns_short_ok(fingerprint@),
    ensures
        r@ == "screenlink-"@ + mdns_short(fingerprint@) + ".local."@,
{
    let mut s = String::from_str("screenlink-");
    s.append(short_prefix(fingerprint));
    s.append(".local.");
    s
}

/// The dotted-quad text of an IPv4 address, as `Ipv4Addr` displays it.
pub open spec fn ipv4_text(ip: u32) -> Seq<char> {
    ascii_chars(dec((ip / 0x100_0000) as nat)) + "."@ + ascii_chars(dec(((ip / 0x1_0000) % 256) as nat))
        + "."@ + ascii_chars(dec(((ip / 0x100) % 256) as nat)) + "."@ + ascii_chars(dec((ip % 256) as nat))
}

/// Dotted-quad text of an IPv4 address.
pub fn ipv4_to_text(ip: u32) -> (r: String)
    ensures
        r@ == ipv4_text(ip),
{
    let mut s = decimal_string((ip / 0x100_0000) as u64);
    s.append(".");
    let b = decimal_string(((ip / 0x1_0000) % 256) as u64);
    s.append(b.as_str());
    s.append(".");
    let c = decimal_string(((ip / 0x100) % 256) as u64);
    s.append(c.as_str());
    s.append(".");
    let d = decimal_string((ip % 256) as u64);
    s.append(d.as_str());
    s
}

/// The diagnosis of a connectivity self-test.
#[derive(Clone, Copy, Debug, PartialEq, Eq, Structural)]
pub enum Verdict {
    /// TCP connection to the control port succeeded.
    Reachable,
    /// Host answered but the port is closed: the peer app is not running, or a
    /// firewall is rejecting the control port.
    PortClosed,
    /// No answer within the timeout: most often AP/client isolation or a
    /// firewall silently dropping packets.
    Unreachable,
    /// The OS reports the network or host unreachable: likely a different
    /// subnet/VLAN with no route.
    NoRoute,
    /// We and the target appear to be on different IPv4 /24 prefixes.
    DifferentSubnet,
}

/// A self-test outcome: the verdict, advice for the user, and the local
/// address the OS would use to reach the target, if known.
#[derive(Clone, Debug)]
pub struct SelfTestResult {
    pub verdict: Verdict,
    pub message: String,
    pub local_ip: Option<PeerIp>,
}

/// How a TCP connect attempt failed, as the OS classifies it.
#[derive(Clone, Copy, Debug, PartialEq, Eq, Structural)]
pub enum ConnectFailure {
    Refused,
    TimedOut,
    NetworkUnreachable,
    HostUnreachable,
    Other,
}

/// Whether two IPv4 addresses share their first three octets.
pub open spec fn same_slash24(a: u32, b: u32) -> bool {
    a / 256 == b / 256
}

/// The subnet hint run before probing: when both the local source address and
/// the target are IPv4 and differ in their /24 prefix, the test stops here.
pub fn subnet_check(local_ip: Option<PeerIp>, target: PeerIp) -> (r: Option<SelfTestResult>)
    ensures
        match (local_ip, target) {
            (Some(PeerIp::V4(local)), PeerIp::V4(remote)) if !same_slash24(local, remote) => {
                r matches Some(t) && {
                    &&& t.verdict == Verdict::DifferentSubnet
                    &&& t.local_ip == local_ip
                    &&& t.message@ == "This device ("@ + ipv4_text(local) + ") and the peer ("@
                        + ipv4_text(remote) + subnet_advice()
                }
            },
            _ => r is None,
        },
{
    if let Some(PeerIp::V4(local)) = local_ip {
        if let PeerIp::V4(remote) = target {
            if local / 256 != remote / 256 {
                let mut message = String::from_str("This device (");
                let l = ipv4_to_text(local);
                message.append(l.as_str());
                message.append(") and the peer (");
                let t = ipv4_to_text(remote);
                message.append(t.as_str());
                message.append(SUBNET_ADVICE);
                return Some(SelfTestResult { verdict: Verdict::DifferentSubnet, message, local_ip });
            }
        }
    }
    None
}

/// The rest of the different-subnet message, after the peer's address.
pub const SUBNET_ADVICE: &'static str = ") look like they're on different subnets. Same Wi-Fi name doesn't always mean the same network \u{2014} try Ethernet, a phone hotspot, or enter the peer's IP manually.";

pub open spec fn subnet_advice() -> Seq<char> {
    SUBNET_ADVICE@
}

/// The result when the control port accepted the connection.
pub fn reachable_result(local_ip: Option<PeerIp>) -> (r: SelfTestResult)
    ensures
        r.verdict == Verdict::Reachable,
        r.local_ip == local_ip,
        r.message@ == "Reachable \u{2014} the control port is open. You should be able to pair/connect."@,
{
    SelfTestResult {
        verdict: Verdict::Reachable,
        message: String::from_str(
            "Reachable \u{2014} the control port is open. You should be able to pair/connect.",
        ),
        local_ip,
    }
}

/// The verdict for each way a connect can fail.
pub open spec fn failure_verdict(kind: ConnectFailure) -> Verdict {
    match kind {
        ConnectFailure::Refused => Verdict::PortClosed,
        ConnectFailure::TimedOut => Verdict::Unreachable,
        ConnectFailure::NetworkUnreachable | ConnectFailure::HostUnreachable => Verdict::NoRoute,
        ConnectFailure::Other => Verdict::Unreachable,
    }
}

/// Diagnose a failed connect. `detail` is the OS error's text, quoted for
/// failures without a specific diagnosis.
pub fn classify_error(kind: ConnectFailure, detail: &str, local_ip: Option<PeerIp>) -> (r:
    SelfTestResult)
    ensures
        r.verdict == failure_verdict(kind),
        r.local_ip == local_ip,
        kind == ConnectFailure::Refused ==> r.message@
            == "The peer is reachable but refused the connection. Make sure ScreenLink is running on it, and that its firewall allows ScreenLink on Private networks."@,
        kind == ConnectFailure::TimedOut ==> r.message@
            == "No response before timeout. This is the classic sign of AP/client isolation (common on guest/hotel/corporate Wi-Fi) or a firewall silently dropping packets. Try a private network, Ethernet, or a phone hotspot."@,
        kind == ConnectFailure::NetworkUnreachable || kind == ConnectFailure::HostUnreachable
            ==> r.message@
            == "The network reports no route to the peer \u{2014} likely a different subnet/VLAN. Use a shared network or enter the peer's IP manually."@,
        kind == ConnectFailure::Other ==> r.message@ == "Could not reach the peer: "@ + detail@,
{
    let (verdict, message) = match kind {
        ConnectFailure::Refused => (
            Verdict::PortClosed,
            String::from_str(
                "The peer is reachable but refused the connection. Make sure ScreenLink is running on it, and that its firewall allows ScreenLink on Private networks.",
            ),
        ),
        ConnectFailure::TimedOut => (
            Verdict::Unreachable,
            String::from_str(
                "No response before timeout. This is the classic sign of AP/client isolation (common on guest/hotel/corporate Wi-Fi) or a firewall silently dropping packets. Try a private network, Ethernet, or a phone hotspot.",
            ),
        ),
        ConnectFailure::NetworkUnreachable | ConnectFailure::HostUnreachable => (
            Verdict::NoRoute,
            String::from_str(
                "The network reports no route to the peer \u{2014} likely a different subnet/VLAN. Use a shared network or enter the peer's IP manually.",
            ),
        ),
        ConnectFailure::Other => {
            let mut m = String::from_str("Could not reach the peer: ");
            m.append(detail);
            (Verdict::Unreachable, m)
        },
    };
    SelfTestResult { verdict, message, local_ip }
}

/// The records' mathematical content, in order.
pub open spec fn views(s: Seq<DiscoveredPeer>) -> Seq<PeerView> {
    s.map_values(|p: DiscoveredPeer| p@)
}

/// Two records name the same endpoint: equal address lists and port.
pub open spec fn same_endpoint(a: PeerView, b: PeerView) -> bool {
    a.addrs == b.addrs && a.port == b.port
}

/// `s` without the records that share `m`'s endpoint, order kept.
pub open spec fn without_endpoint(s: Seq<PeerView>, m: PeerView) -> Seq<PeerView>
    decreases s.len(),
{
    if s.len() == 0 {
        s
    } else {
        let rest = without_endpoint(s.drop_last(), m);
        if same_endpoint(s.last(), m) {
            rest
        } else {
            rest.push(s.last())
        }
    }
}

/// Lay the manual records over `out`, in order: each replaces every record with
/// its endpoint, so a user's entry overrides what mDNS announced.
pub open spec fn overlay_manual(out: Seq<PeerView>, manual: Seq<PeerView>) -> Seq<PeerView>
    decreases manual.len(),
{
    if manual.len() == 0 {
        out
    } else {
        overlay_manual(without_endpoint(out, manual[0]).push(manual[0]), manual.drop_first())
    }
}

/// Some record before position `k` of `s` has the endpoint of `s[k]`.
pub open spec fn shares_earlier_endpoint(s: Seq<PeerView>, k: int) -> bool {
    exists|q: int| 0 <= q < k && same_endpoint(#[trigger] s[q], s[k])
}

/// The records of `s` that are the first with their endpoint, order kept: of
/// two manual entries for one endpoint, the earlier is the one used.
pub open spec fn first_per_endpoint(s: Seq<PeerView>) -> Seq<PeerView>
    decreases s.len(),
{
    if s.len() == 0 {
        s
    } else {
        let rest = first_per_endpoint(s.drop_last());
        if shares_earlier_endpoint(s, s.len() - 1) {
            rest
        } else {
            rest.push(s.last())
        }
    }
}

/// The merged list before sorting: the mDNS records with the manual ones laid
/// over them, the first manual record at an endpoint taking it.
pub open spec fn merged_peers(mdns: Seq<PeerView>, manual: Seq<PeerView>) -> Seq<PeerView> {
    overlay_manual(mdns, first_per_endpoint(manual))
}

/// The key the list is ordered by: the name's UTF-8 bytes (`String`'s order).
pub open spec fn name_key(p: PeerView) -> Seq<u8> {
    utf8_bytes(p.name)
}

/// Insert `x` into `s` after every record whose name is not greater.
pub open spec fn insert_by_name(s: Seq<PeerView>, x: PeerView) -> Seq<PeerView>
    decreases s.len(),
{
    if s.len() == 0 {
        seq![x]
    } else if lex_le(name_key(s.last()), name_key(x)) {
        s.push(x)
    } else {
        insert_by_name(s.drop_last(), x).push(s.last())
    }
}

/// `s` stably sorted by name (records with equal names keep their order).
pub open spec fn sort_by_name(s: Seq<PeerView>) -> Seq<PeerView>
    decreases s.len(),
{
    if s.len() == 0 {
        s
    } else {
        insert_by_name(sort_by_name(s.drop_last()), s.last())
    }
}

/// Ordered by name.
pub open spec fn sorted_by_name(s: Seq<PeerView>) -> bool {
    forall|i: int, j: int| 0 <= i < j < s.len() ==> lex_le(name_key(#[trigger] s[i]), name_key(#[trigger] s[j]))
}

proof fn lemma_insert_at(s: Seq<PeerView>, x: PeerView, j: int)
    requires
        0 <= j <= s.len(),
        forall|k: int| j <= k < s.len() ==> !lex_le(name_key(#[trigger] s[k]), name_key(x)),
        j == 0 || lex_le(name_key(s[j - 1]), name_key(x)),
    ensures
        insert_by_name(s, x) == s.insert(j, x),
    decreases s.len(),
{
    if s.len() == 0 {
        assert(s.insert(j, x) =~= seq![x]);
    } else if lex_le(name_key(s.last()), name_key(x)) {
        assert(j == s.len());
        assert(s.insert(j, x) =~= s.push(x));
    } else {
        assert(j < s.len());
        lemma_insert_at(s.drop_last(), x, j);
        assert(s.insert(j, x) =~= s.drop_last().insert(j, x).push(s.last()));
    }
}

proof fn lemma_insert_keeps(s: Seq<PeerView>, x: PeerView)
    ensures
        insert_by_name(s, x).to_multiset() == s.to_multiset().insert(x),
        sorted_by_name(s) ==> sorted_by_name(insert_by_name(s, x)),
    decreases s.len(),
{
    broadcast use vstd::seq_lib::group_to_multiset_ensures;

    if s.len() == 0 {
        assert(seq![x] =~= Seq::<PeerView>::empty().push(x));
    } else if lex_le(name_key(s.last()), name_key(x)) {
        if sorted_by_name(s) {
            assert forall|i: int, j: int| 0 <= i < j < s.len() + 1 implies lex_le(
                name_key(#[trigger] s.push(x)[i]),
                name_key(#[trigger] s.push(x)[j]),
            ) by {
                if j == s.len() {
                    if i < s.len() - 1 {
                        crate::bytes::lemma_lex_le_transitive(
                            name_key(s[i]),
                            name_key(s.last()),
                            name_key(x),
                        );
                    }
                }
            }
        }
    } else {
        let t = insert_by_name(s.drop_last(), x);
        lemma_insert_keeps(s.drop_last(), x);
        assert(s =~= s.drop_last().push(s.last()));
        if sorted_by_name(s) {
            assert(sorted_by_name(s.drop_last()));
            crate::bytes::lemma_lex_le_total(name_key(s.last()), name_key(x));
            assert forall|k: int| 0 <= k < t.len() implies lex_le(
                name_key(#[trigger] t[k]),
                name_key(s.last()),
            ) by {
                let ms = t.to_multiset();
                assert(ms.count(t[k]) > 0);
                assert(t.contains(t[k]));
                if t[k] != x {
                    assert(s.drop_last().to_multiset().count(t[k]) > 0);
                    assert(s.drop_last().contains(t[k]));
                    let idx = choose|idx: int| 0 <= idx < s.drop_last().len() && s.drop_last()[idx] == t[k];
                    assert(s[idx] == t[k]);
                }
            }
            assert forall|i: int, j: int| 0 <= i < j < t.len() + 1 implies lex_le(
                name_key(#[trigger] t.push(s.last())[i]),
                name_key(#[trigger] t.push(s.last())[j]),
            ) by {
                if j == t.len() {
                    assert(t.push(s.last())[i] == t[i]);
                }
            }
        }
    }
}

/// The listed peers are ordered by name.
pub proof fn law_peers_sorted_by_name(s: Seq<PeerView>)
    ensures
        sorted_by_name(sort_by_name(s)),
    decreases s.len(),
{
    if s.len() > 0 {
        law_peers_sorted_by_name(s.drop_last());
        lemma_insert_keeps(sort_by_name(s.drop_last()), s.last());
    }
}

/// Sorting lists every record exactly as often as it was given.
pub proof fn law_sort_keeps_every_peer(s: Seq<PeerView>)
    ensures
        sort_by_name(s).to_multiset() == s.to_multiset(),
    decreases s.len(),
{
    broadcast use vstd::seq_lib::group_to_multiset_ensures;

    if s.len() > 0 {
        law_sort_keeps_every_peer(s.drop_last());
        lemma_insert_keeps(sort_by_name(s.drop_last()), s.last());
        assert(s =~= s.drop_last().push(s.last()));
    }
}

/// Equal address lists.
fn same_addrs(a: &Vec<PeerIp>, b: &Vec<PeerIp>) -> (r: bool)
    ensures
        r == (a@ == b@),
{
    if a.len() != b.len() {
        return false;
    }
    let mut i: usize = 0;
    while i < a.len()
        invariant
            a@.len() == b@.len(),
            0 <= i <= a@.len(),
            forall|k: int| 0 <= k < i ==> a@[k] == b@[k],
        decreases a@.len() - i,
    {
        if a[i] != b[i] {
            return false;
        }
        i = i + 1;
    }
    assert(a@ =~= b@);
    true
}

/// Drop the records sharing `m`'s endpoint.
fn remove_endpoint(out: Vec<DiscoveredPeer>, m: &DiscoveredPeer) -> (r: Vec<DiscoveredPeer>)
    ensures
        views(r@) == without_endpoint(views(out@), m@),
{
    let mut kept: Vec<DiscoveredPeer> = Vec::new();
    let mut i: usize = 0;
    while i < out.len()
        invariant
            0 <= i <= out@.len(),
            views(kept@) == without_endpoint(views(out@).take(i as int), m@),
        decreases out@.len() - i,
    {
        assert(views(out@).take(i + 1).drop_last() =~= views(out@).take(i as int));
        if !(same_addrs(&out[i].addrs, &m.addrs) && out[i].port == m.port) {
            kept.push(out[i].clone());
            assert(views(kept@) =~= without_endpoint(views(out@).take(i as int), m@).push(out@[i as int]@));
        }
        i = i + 1;
    }
    assert(views(out@).take(out@.len() as int) =~= views(out@));
    kept
}

/// Whether a record before position `k` has the endpoint of `s[k]`.
fn earlier_endpoint(s: &Vec<DiscoveredPeer>, k: usize) -> (r: bool)
    requires
        k < s@.len(),
    ensures
        r == shares_earlier_endpoint(views(s@), k as int),
{
    let mut q: usize = 0;
    while q < k
        invariant
            k < s@.len(),
            0 <= q <= k,
            forall|j: int| 0 <= j < q ==> !same_endpoint(#[trigger] views(s@)[j], views(s@)[k as int]),
        decreases k - q,
    {
        if same_addrs(&s[q].addrs, &s[k].addrs) && s[q].port == s[k].port {
            assert(same_endpoint(views(s@)[q as int], views(s@)[k as int]));
            return true;
        }
        q = q + 1;
    }
    false
}

/// The records that are the first with their endpoint, order kept.
fn keep_first_per_endpoint(s: &Vec<DiscoveredPeer>) -> (r: Vec<DiscoveredPeer>)
    ensures
        views(r@) == first_per_endpoint(views(s@)),
{
    let mut out: Vec<DiscoveredPeer> = Vec::new();
    let mut k: usize = 0;
    while k < s.len()
        invariant
            0 <= k <= s@.len(),
            views(out@) == first_per_endpoint(views(s@).take(k as int)),
        decreases s@.len() - k,
    {
        let ghost t = views(s@).take(k + 1);
        assert(t.drop_last() =~= views(s@).take(k as int));
        let earlier = earlier_endpoint(s, k);
        assert(shares_earlier_endpoint(t, k as int) == shares_earlier_endpoint(views(s@), k as int)) by {
            if shares_earlier_endpoint(views(s@), k as int) {
                let q = choose|q: int| 0 <= q < k && same_endpoint(#[trigger] views(s@)[q], views(s@)[k as int]);
                assert(t[q] == views(s@)[q]);
            }
            if shares_earlier_endpoint(t, k as int) {
                let q = choose|q: int| 0 <= q < k && same_endpoint(#[trigger] t[q], t[k as int]);
                assert(t[q] == views(s@)[q]);
            }
        }
        if !earlier {
            out.push(s[k].clone());
            assert(views(out@) =~= first_per_endpoint(views(s@).take(k as int)).push(s@[k as int]@));
        }
        k = k + 1;
    }
    assert(views(s@).take(s@.len() as int) =~= views(s@));
    out
}

/// mDNS peers plus manual peers, a manual record replacing any with its
/// endpoint (a user override takes effect; of two manual records for one
/// endpoint the first is kept), sorted by name.
pub fn merge_peers(mdns: &Vec<DiscoveredPeer>, manual: &Vec<DiscoveredPeer>) -> (r: Vec<
    DiscoveredPeer,
>)
    ensures
        views(r@) == sort_by_name(merged_peers(views(mdns@), views(manual@))),
{
    let mut out: Vec<DiscoveredPeer> = Vec::new();
    let mut i: usize = 0;
    while i < mdns.len()
        invariant
            0 <= i <= mdns@.len(),
            out@.len() == i,
            views(out@) == views(mdns@).take(i as int),
        decreases mdns@.len() - i,
    {
        let ghost prev = out@;
        let c = mdns[i].clone();
        out.push(c);
        assert forall|q: int| 0 <= q < i + 1 implies #[trigger] views(out@)[q] == views(mdns@).take(i + 1)[q] by {
            if q < i {
                assert(views(prev)[q] == views(mdns@).take(i as int)[q]);
            }
        }
        assert(views(out@) =~= views(mdns@).take(i + 1));
        i = i + 1;
    }
    assert(views(mdns@).take(mdns@.len() as int) =~= views(mdns@));
    let firsts = keep_first_per_endpoint(manual);
    let mut k: usize = 0;
    assert(views(firsts@).skip(0) =~= views(firsts@));
    while k < firsts.len()
        invariant
            0 <= k <= firsts@.len(),
            overlay_manual(views(out@), views(firsts@).skip(k as int)) == overlay_manual(
                views(mdns@),
                views(firsts@),
            ),
        decreases firsts@.len() - k,
    {
        let m = &firsts[k];
        let mut next = remove_endpoint(out, m);
        next.push(m.clone());
        assert(views(firsts@).skip(k as int).drop_first() =~= views(firsts@).skip(k + 1));
        assert(views(next@) =~= without_endpoint(views(out@), m@).push(m@));
        out = next;
        k = k + 1;
    }
    let ghost merged = views(out@);
    let mut sorted: Vec<DiscoveredPeer> = Vec::new();
    let mut i: usize = 0;
    while i < out.len()
        invariant
            0 <= i <= out@.len(),
            merged == views(out@),
            views(sorted@) == sort_by_name(merged.take(i as int)),
        decreases out@.len() - i,
    {
        let x = out[i].clone();
        let ghost before = views(sorted@);
        let mut j: usize = sorted.len();
        let mut found = false;
        while j > 0 && !found
            invariant
                0 <= j <= sorted@.len(),
                before == views(sorted@),
                x@ == merged[i as int],
                forall|q: int| j <= q < sorted@.len() ==> !lex_le(name_key(#[trigger] before[q]), name_key(x@)),
                found ==> j > 0 && lex_le(name_key(before[j - 1]), name_key(x@)),
            decreases 2 * j + (if found { 0int } else { 1int }),
        {
            if bytes_le(sorted[j - 1].name.as_str().as_bytes(), x.name.as_str().as_bytes()) {
                found = true;
            } else {
                j = j - 1;
            }
        }
        proof {
            lemma_insert_at(before, x@, j as int);
            assert(merged.take(i + 1).drop_last() =~= merged.take(i as int));
        }
        sorted.insert(j, x);
        assert(views(sorted@) =~= before.insert(j as int, merged[i as int]));
        i = i + 1;
    }
    assert(merged.take(out@.len() as int) =~= merged);
    sorted
}

/// `m` is listed, and no other listed record has its endpoint.
pub open spec fn sole_at_endpoint(s: Seq<PeerView>, m: PeerView) -> bool {
    &&& s.contains(m)
    &&& forall|i: int| 0 <= i < s.len() && same_endpoint(#[trigger] s[i], m) ==> s[i] == m
}

proof fn lemma_without_endpoint_contains(s: Seq<PeerView>, m: PeerView, x: PeerView)
    ensures
        without_endpoint(s, m).contains(x) <==> s.contains(x) && !same_endpoint(x, m),
    decreases s.len(),
{
    if s.len() > 0 {
        lemma_without_endpoint_contains(s.drop_last(), m, x);
        assert(s =~= s.drop_last().push(s.last()));
        let rest = without_endpoint(s.drop_last(), m);
        if s.contains(x) && !same_endpoint(x, m) {
            let i = choose|i: int| 0 <= i < s.len() && s[i] == x;
            if i < s.len() - 1 {
                assert(s.drop_last()[i] == x);
            }
        }
        if !same_endpoint(s.last(), m) {
            assert(rest.push(s.last())[rest.len() as int] == s.last());
            if rest.push(s.last()).contains(x) {
                let i = choose|i: int| 0 <= i < rest.len() + 1 && rest.push(s.last())[i] == x;
                if i < rest.len() {
                    assert(rest[i] == x);
                }
            }
            if rest.contains(x) {
                let i = choose|i: int| 0 <= i < rest.len() && rest[i] == x;
                assert(rest.push(s.last())[i] == x);
            }
        }
        if s.drop_last().contains(x) {
            let i = choose|i: int| 0 <= i < s.drop_last().len() && s.drop_last()[i] == x;
            assert(s[i] == x);
        }
    }
}

proof fn lemma_sole_after_replace(out: Seq<PeerView>, m: PeerView)
    ensures
        sole_at_endpoint(without_endpoint(out, m).push(m), m),
{
    let w = without_endpoint(out, m);
    let t = w.push(m);
    assert(t[w.len() as int] == m);
    assert forall|i: int| 0 <= i < t.len() && same_endpoint(#[trigger] t[i], m) implies t[i] == m by {
        if i < w.len() {
            assert(w.contains(w[i]));
            lemma_without_endpoint_contains(out, m, w[i]);
        }
    }
}

proof fn lemma_sole_survives(out: Seq<PeerView>, manual: Seq<PeerView>, m: PeerView)
    requires
        sole_at_endpoint(out, m),
        forall|q: int| 0 <= q < manual.len() ==> !same_endpoint(#[trigger] manual[q], m),
    ensures
        sole_at_endpoint(overlay_manual(out, manual), m),
    decreases manual.len(),
{
    if manual.len() > 0 {
        let n = manual[0];
        let w = without_endpoint(out, n);
        let t = w.push(n);
        lemma_without_endpoint_contains(out, n, m);
        assert(t[w.len() as int] == n);
        let j = choose|j: int| 0 <= j < w.len() && w[j] == m;
        assert(t[j] == m);
        assert forall|i: int| 0 <= i < t.len() && same_endpoint(#[trigger] t[i], m) implies t[i] == m by {
            if i < w.len() {
                assert(w.contains(w[i]));
                lemma_without_endpoint_contains(out, n, w[i]);
                let k = choose|k: int| 0 <= k < out.len() && out[k] == w[i];
                assert(same_endpoint(out[k], m));
            }
        }
        assert forall|q: int| 0 <= q < manual.drop_first().len() implies !same_endpoint(
            #[trigger] manual.drop_first()[q],
            m,
        ) by {
            assert(manual.drop_first()[q] == manual[q + 1]);
        }
        lemma_sole_survives(t, manual.drop_first(), m);
    }
}

proof fn lemma_overlay_sole(out: Seq<PeerView>, manual: Seq<PeerView>, k: int)
    requires
        0 <= k < manual.len(),
        forall|q: int| k < q < manual.len() ==> !same_endpoint(#[trigger] manual[q], manual[k]),
    ensures
        sole_at_endpoint(overlay_manual(out, manual), manual[k]),
    decreases manual.len(),
{
    let next = without_endpoint(out, manual[0]).push(manual[0]);
    if k == 0 {
        lemma_sole_after_replace(out, manual[0]);
        assert forall|q: int| 0 <= q < manual.drop_first().len() implies !same_endpoint(
            #[trigger] manual.drop_first()[q],
            manual[0],
        ) by {
            assert(manual.drop_first()[q] == manual[q + 1]);
        }
        lemma_sole_survives(next, manual.drop_first(), manual[0]);
    } else {
        assert forall|q: int| k - 1 < q < manual.drop_first().len() implies !same_endpoint(
            #[trigger] manual.drop_first()[q],
            manual.drop_first()[k - 1],
        ) by {
            assert(manual.drop_first()[q] == manual[q + 1]);
        }
        lemma_overlay_sole(next, manual.drop_first(), k - 1);
    }
}

proof fn lemma_first_per_endpoint(s: Seq<PeerView>)
    ensures
        forall|x: PeerView| #[trigger] first_per_endpoint(s).contains(x) ==> s.contains(x),
        forall|i: int, j: int|
            0 <= i < j < first_per_endpoint(s).len() ==> !same_endpoint(
                #[trigger] first_per_endpoint(s)[i],
                #[trigger] first_per_endpoint(s)[j],
            ),
        forall|k: int|
            0 <= k < s.len() && !shares_earlier_endpoint(s, k) ==> #[trigger] first_per_endpoint(
                s,
            ).contains(s[k]),
    decreases s.len(),
{
    if s.len() > 0 {
        let init = s.drop_last();
        let rest = first_per_endpoint(init);
        let d = first_per_endpoint(s);
        lemma_first_per_endpoint(init);
        assert forall|x: PeerView| #[trigger] d.contains(x) implies s.contains(x) by {
            let i = choose|i: int| 0 <= i < d.len() && d[i] == x;
            if i < rest.len() {
                assert(rest[i] == x);
                assert(rest.contains(x));
                let j = choose|j: int| 0 <= j < init.len() && init[j] == x;
                assert(s[j] == x);
            } else {
                assert(s[s.len() - 1] == x);
            }
        }
        if !shares_earlier_endpoint(s, s.len() - 1) {
            assert forall|i: int, j: int| 0 <= i < j < d.len() implies !same_endpoint(
                #[trigger] d[i],
                #[trigger] d[j],
            ) by {
                if j == rest.len() {
                    assert(d[i] == rest[i]);
                    assert(rest.contains(rest[i]));
                    let q = choose|q: int| 0 <= q < init.len() && init[q] == rest[i];
                    assert(s[q] == rest[i]);
                    if same_endpoint(d[i], d[j]) {
                        assert(same_endpoint(s[q], s[s.len() - 1]));
                    }
                } else {
                    assert(d[i] == rest[i] && d[j] == rest[j]);
                }
            }
        }
        assert forall|k: int| 0 <= k < s.len() && !shares_earlier_endpoint(s, k) implies #[trigger] d.contains(s[k]) by {
            if k == s.len() - 1 {
                assert(d[d.len() - 1] == s[k]);
            } else {
                assert(init[k] == s[k]);
                assert(!shares_earlier_endpoint(init, k)) by {
                    if shares_earlier_endpoint(init, k) {
                        let q = choose|q: int| 0 <= q < k && same_endpoint(#[trigger] init[q], init[k]);
                        assert(init[q] == s[q]);
                    }
                }
                assert(rest.contains(init[k]));
                let q = choose|q: int| 0 <= q < rest.len() && rest[q] == s[k];
                assert(d[q] == s[k]);
            }
        }
    }
}

/// A user's manual entry overrides discovery: a manual record that is the
/// first manual record with its endpoint is listed, and it is the only listed
/// record at that endpoint.
pub proof fn law_manual_entry_wins(mdns: Seq<PeerView>, manual: Seq<PeerView>, k: int)
    requires
        0 <= k < manual.len(),
        !shares_earlier_endpoint(manual, k),
    ensures
        sole_at_endpoint(sort_by_name(merged_peers(mdns, manual)), manual[k]),
{
    broadcast use vstd::seq_lib::group_to_multiset_ensures;

    let d = first_per_endpoint(manual);
    let m = manual[k];
    lemma_first_per_endpoint(manual);
    assert(d.contains(m));
    let j = choose|j: int| 0 <= j < d.len() && d[j] == m;
    assert forall|q: int| j < q < d.len() implies !same_endpoint(#[trigger] d[q], d[j]) by {
        assert(!same_endpoint(d[j], d[q]));
    }
    let o = overlay_manual(mdns, d);
    let r = sort_by_name(o);
    lemma_overlay_sole(mdns, d, j);
    law_sort_keeps_every_peer(o);
    assert(o.to_multiset().count(m) > 0);
    assert(r.to_multiset().count(m) > 0);
    assert forall|i: int| 0 <= i < r.len() && same_endpoint(#[trigger] r[i], m) implies r[i] == m by {
        assert(r.contains(r[i]));
        assert(r.to_multiset().count(r[i]) > 0);
        assert(o.to_multiset().count(r[i]) > 0);
        assert(o.contains(r[i]));
        let jj = choose|jj: int| 0 <= jj < o.len() && o[jj] == r[i];
        assert(same_endpoint(o[jj], m));
    }
}

/// `needle` occurs in `hay` as a run of consecutive bytes (`str::contains`).
pub open spec fn contains_bytes(hay: Seq<u8>, needle: Seq<u8>) -> bool {
    exists|i: int| 0 <= i <= hay.len() - needle.len() && #[trigger] hay.subrange(i, i + needle.len()) == needle
}

/// Whether `n` occurs in `h` at offset `i`.
fn matches_at(h: &[u8], n: &[u8], i: usize) -> (r: bool)
    requires
        i + n@.len() <= h@.len(),
    ensures
        r == (h@.subrange(i as int, i + n@.len()) == n@),
{
    let hl = h.len();
    let mut j: usize = 0;
    while j < n.len()
        invariant
            hl == h@.len(),
            i + n@.len() <= h@.len(),
            0 <= j <= n@.len(),
            forall|q: int| 0 <= q < j ==> h@[i + q] == n@[q],
        decreases n@.len() - j,
    {
        if h[i + j] != n[j] {
            assert(h@.subrange(i as int, i + n@.len())[j as int] == h@[i + j]);
            return false;
        }
        j = j + 1;
    }
    assert(h@.subrange(i as int, i + n@.len()) =~= n@);
    true
}

/// Whether `needle` occurs in `hay`.
pub fn str_contains(hay: &str, needle: &str) -> (r: bool)
    ensures
        r == contains_bytes(utf8_bytes(hay@), utf8_bytes(needle@)),
{
    let h = hay.as_bytes();
    let n = needle.as_bytes();
    assert(h@ == utf8_bytes(hay@));
    assert(n@ == utf8_bytes(needle@));
    if n.len() > h.len() {
        return false;
    }
    let last = h.len() - n.len();
    let mut i: usize = 0;
    while i < last
        invariant
            h@ == utf8_bytes(hay@),
            n@ == utf8_bytes(needle@),
            n@.len() <= h@.len(),
            last == h@.len() - n@.len(),
            0 <= i <= last,
            forall|k: int| 0 <= k < i ==> #[trigger] h@.subrange(k, k + n@.len()) != n@,
        decreases last - i,
    {
        if matches_at(h, n, i) {
            return true;
        }
        i = i + 1;
    }
    matches_at(h, n, last)
}

/// One mDNS-announced peer under its key (fingerprint, or the service name
/// when the announcement carries none).
pub struct KeyedPeer {
    pub key: Seq<char>,
    pub peer: PeerView,
}

/// `entries` with the peer under `key` replaced in place, or appended.
pub open spec fn upsert_keyed(entries: Seq<KeyedPeer>, key: Seq<char>, peer: PeerView) -> Seq<KeyedPeer>
    decreases entries.len(),
{
    if entries.len() == 0 {
        seq![KeyedPeer { key, peer }]
    } else if entries[0].key == key {
        entries.update(0, KeyedPeer { key, peer })
    } else {
        seq![entries[0]] + upsert_keyed(entries.drop_first(), key, peer)
    }
}

/// The entries whose peer name does not occur in `fullname` (a removal
/// announcement takes out every peer named in it).
pub open spec fn after_removal(entries: Seq<KeyedPeer>, fullname: Seq<char>) -> Seq<KeyedPeer>
    decreases entries.len(),
{
    if entries.len() == 0 {
        entries
    } else {
        let rest = after_removal(entries.drop_last(), fullname);
        if contains_bytes(utf8_bytes(fullname), utf8_bytes(entries.last().peer.name)) {
            rest
        } else {
            rest.push(entries.last())
        }
    }
}

/// The record a resolved announcement yields: its TXT fingerprint and name
/// (the service's full name when no name is advertised), addresses and port.
pub open spec fn resolved_peer(
    fingerprint: Seq<char>,
    name: Option<Seq<char>>,
    fullname: Seq<char>,
    addrs: Seq<PeerIp>,
    port: u16,
) -> PeerView {
    PeerView {
        fingerprint,
        name: match name {
            Some(n) => n,
            None => fullname,
        },
        addrs,
        port,
        source: PeerSource::Mdns,
    }
}

/// The text of an optional string.
pub open spec fn opt_text(s: Option<String>) -> Option<Seq<char>> {
    match s {
        Some(t) => Some(t@),
        None => None,
    }
}

/// The key a resolved announcement is stored under: its fingerprint, or the
/// service's full name when the fingerprint is empty.
pub open spec fn resolved_key(fingerprint: Seq<char>, fullname: Seq<char>) -> Seq<char> {
    if fingerprint.len() == 0 {
        fullname
    } else {
        fingerprint
    }
}

/// The peers known to this device: those announced over mDNS (keyed, in the
/// order first seen) and those entered by hand.
pub struct PeerBook {
    our_fingerprint: String,
    mdns: Vec<(String, DiscoveredPeer)>,
    manual: Vec<DiscoveredPeer>,
}

pub open spec fn keyed_views(s: Seq<(String, DiscoveredPeer)>) -> Seq<KeyedPeer> {
    s.map_values(|e: (String, DiscoveredPeer)| KeyedPeer { key: e.0@, peer: e.1@ })
}

impl PeerBook {
    pub closed spec fn our_fingerprint_spec(&self) -> Seq<char> {
        self.our_fingerprint@
    }

    /// The mDNS entries, in order.
    pub closed spec fn announced(&self) -> Seq<KeyedPeer> {
        keyed_views(self.mdns@)
    }

    /// The manual entries, in order.
    pub closed spec fn manual_spec(&self) -> Seq<PeerView> {
        views(self.manual@)
    }

    /// An empty book for the device with this fingerprint.
    pub fn new(our_fingerprint: String) -> (r: Self)
        ensures
            r.our_fingerprint_spec() == our_fingerprint@,
            r.announced() == Seq::<KeyedPeer>::empty(),
            r.manual_spec() == Seq::<PeerView>::empty(),
    {
        let r = PeerBook { our_fingerprint, mdns: Vec::new(), manual: Vec::new() };
        assert(keyed_views(r.mdns@) =~= Seq::<KeyedPeer>::empty());
        assert(views(r.manual@) =~= Seq::<PeerView>::empty());
        r
    }

    /// This device's fingerprint (never listed as a peer).
    pub fn our_fingerprint(&self) -> (r: &str)
        ensures
            r@ == self.our_fingerprint_spec(),
    {
        self.our_fingerprint.as_str()
    }

    /// A service was resolved. Our own announcement is ignored; any other is
    /// stored under its key, replacing the earlier record with that key.
    pub fn on_resolved(
        &mut self,
        fingerprint: String,
        name: Option<String>,
        fullname: String,
        addrs: Vec<PeerIp>,
        port: u16,
    )
        ensures
            final(self).our_fingerprint_spec() == old(self).our_fingerprint_spec(),
            final(self).manual_spec() == old(self).manual_spec(),
            fingerprint@ == old(self).our_fingerprint_spec() ==> final(self).announced()
                == old(self).announced(),
            fingerprint@ != old(self).our_fingerprint_spec() ==> final(self).announced()
                == upsert_keyed(
                old(self).announced(),
                resolved_key(fingerprint@, fullname@),
                resolved_peer(
                    fingerprint@,
                    opt_text(name),
                    fullname@,
                    addrs@,
                    port,
                ),
            ),
    {
        let ghost target_key = resolved_key(fingerprint@, fullname@);
        let ghost target_peer = resolved_peer(
            fingerprint@,
            opt_text(name),
            fullname@,
            addrs@,
            port,
        );
        if fingerprint == self.our_fingerprint {
            return;
        }
        let ghost fpv = fingerprint@;
        let key = if fingerprint.as_str().is_empty() { fullname.clone() } else { fingerprint.clone() };
        let peer_name = match name {
            Some(n) => n,
            None => fullname,
        };
        let peer = DiscoveredPeer {
            fingerprint,
            name: peer_name,
            addrs,
            port,
            source: PeerSource::Mdns,
        };
        let ghost old_entries = keyed_views(self.mdns@);
        let ghost k = key@;
        let ghost pv = peer@;
        assert(k == target_key);
        assert(pv == target_peer);
        let mut i: usize = 0;
        while i < self.mdns.len()
            invariant
                0 <= i <= self.mdns@.len(),
                self.mdns@ == old(self).mdns@,
                self.our_fingerprint == old(self).our_fingerprint,
                self.manual == old(self).manual,
                fpv != old(self).our_fingerprint@,
                fpv == fingerprint@,
                target_key == resolved_key(fingerprint@, fullname@),
                target_peer == resolved_peer(fingerprint@, opt_text(name), fullname@, addrs@, port),
                pv == peer@,
                k == target_key,
                pv == target_peer,
                old_entries == keyed_views(self.mdns@),
                k == key@,
                forall|q: int| 0 <= q < i ==> (#[trigger] self.mdns@[q]).0@ != k,
            decreases self.mdns@.len() - i,
        {
            if self.mdns[i].0 == key {
                proof {
                    lemma_upsert_at(old_entries, k, pv, i as int);
                }
                let ghost before = self.mdns@;
                let entry = (key, peer);
                assert(entry.0@ == k && entry.1@ == pv);
                self.mdns.set(i, entry);
                assert(self.mdns@[i as int] == entry);
                assert forall|q: int| 0 <= q < before.len() implies #[trigger] keyed_views(self.mdns@)[q]
                    == old_entries.update(i as int, KeyedPeer { key: k, peer: pv })[q] by {
                    if q != i {
                        assert(self.mdns@[q] == before[q]);
                    }
                }
                assert(keyed_views(self.mdns@) =~= old_entries.update(i as int, KeyedPeer { key: k, peer: pv }));
                return;
            }
            i = i + 1;
        }
        proof {
            lemma_upsert_at(old_entries, k, pv, i as int);
        }
        self.mdns.push((key, peer));
        assert(keyed_views(self.mdns@) =~= old_entries.push(KeyedPeer { key: k, peer: pv }));
    }

    /// A service went away: drop every announced peer whose name occurs in the
    /// service's full name.
    pub fn on_removed(&mut self, fullname: &str)
        ensures
            final(self).our_fingerprint_spec() == old(self).our_fingerprint_spec(),
            final(self).manual_spec() == old(self).manual_spec(),
            final(self).announced() == after_removal(old(self).announced(), fullname@),
    {
        let ghost entries = keyed_views(self.mdns@);
        let mut kept: Vec<(String, DiscoveredPeer)> = Vec::new();
        let mut i: usize = 0;
        while i < self.mdns.len()
            invariant
                0 <= i <= self.mdns@.len(),
                entries == keyed_views(self.mdns@),
                keyed_views(kept@) == after_removal(entries.take(i as int), fullname@),
            decreases self.mdns@.len() - i,
        {
            assert(entries.take(i + 1).drop_last() =~= entries.take(i as int));
            if !str_contains(fullname, self.mdns[i].1.name.as_str()) {
                let key = self.mdns[i].0.clone();
                let peer = self.mdns[i].1.clone();
                kept.push((key, peer));
                assert(keyed_views(kept@) =~= after_removal(entries.take(i as int), fullname@).push(entries[i as int]));
            }
            i = i + 1;
        }
        assert(entries.take(self.mdns@.len() as int) =~= entries);
        self.mdns = kept;
    }

    /// Replace the manual peer list (e.g. from the config or the UI).
    pub fn set_manual_peers(&mut self, peers: Vec<DiscoveredPeer>)
        ensures
            final(self).our_fingerprint_spec() == old(self).our_fingerprint_spec(),
            final(self).announced() == old(self).announced(),
            final(self).manual_spec() == views(peers@),
    {
        self.manual = peers;
    }

    /// The current merged view: announced peers plus manual ones (a manual
    /// record replacing any with its endpoint, the first of two manual records
    /// for one endpoint kept), sorted by name.
    pub fn peers(&self) -> (r: Vec<DiscoveredPeer>)
        ensures
            views(r@) == sort_by_name(merged_peers(self.announced().map_values(|e: KeyedPeer| e.peer), self.manual_spec())),
    {
        let mut announced: Vec<DiscoveredPeer> = Vec::new();
        let mut i: usize = 0;
        while i < self.mdns.len()
            invariant
                0 <= i <= self.mdns@.len(),
                announced@.len() == i,
                views(announced@) == self.announced().map_values(|e: KeyedPeer| e.peer).take(i as int),
            decreases self.mdns@.len() - i,
        {
            let ghost prev = announced@;
            let c = self.mdns[i].1.clone();
            announced.push(c);
            assert forall|q: int| 0 <= q < i + 1 implies #[trigger] views(announced@)[q]
                == self.announced().map_values(|e: KeyedPeer| e.peer).take(i + 1)[q] by {
                if q < i {
                    assert(views(prev)[q] == self.announced().map_values(|e: KeyedPeer| e.peer).take(i as int)[q]);
                }
            }
            assert(views(announced@) =~= self.announced().map_values(|e: KeyedPeer| e.peer).take(i + 1));
            i = i + 1;
        }
        assert(self.announced().map_values(|e: KeyedPeer| e.peer).take(self.mdns@.len() as int)
            =~= self.announced().map_values(|e: KeyedPeer| e.peer));
        merge_peers(&announced, &self.manual)
    }
}

proof fn lemma_upsert_at(entries: Seq<KeyedPeer>, key: Seq<char>, peer: PeerView, i: int)
    requires
        0 <= i <= entries.len(),
        forall|q: int| 0 <= q < i ==> (#[trigger] entries[q]).key != key,
        i < entries.len() ==> entries[i].key == key,
    ensures
        i < entries.len() ==> upsert_keyed(entries, key, peer) == entries.update(i, KeyedPeer { key, peer }),
        i == entries.len() ==> upsert_keyed(entries, key, peer) == entries.push(KeyedPeer { key, peer }),
    decreases i,
{
    if i > 0 {
        let rest = entries.drop_first();
        assert forall|q: int| 0 <= q < i - 1 implies (#[trigger] rest[q]).key != key by {
            assert(rest[q] == entries[q + 1]);
        }
        lemma_upsert_at(rest, key, peer, i - 1);
        if i < entries.len() {
            assert(entries.update(i, KeyedPeer { key, peer }) =~= seq![entries[0]] + rest.update(i - 1, KeyedPeer { key, peer }));
        } else {
            assert(entries.push(KeyedPeer { key, peer }) =~= seq![entries[0]] + rest.push(KeyedPeer { key, peer }));
        }
    } else if entries.len() == 0 {
        assert(entries.push(KeyedPeer { key, peer }) =~= seq![KeyedPeer { key, peer }]);
    }
}

} // verus!
