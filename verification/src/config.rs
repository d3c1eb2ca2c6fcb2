//! Application configuration: this device's name, ports, the snap-home hotkey,
//! and the screen arrangement / mode of each paired peer. Loading and saving the
//! file is done in `app/`.

use vstd::prelude::*;
use crate::protocol::{Mode, ScreenEdge};
use crate::{DEFAULT_CONTROL_PORT, DEFAULT_REALTIME_PORT};

verus! {

/// How a paired peer is arranged relative to this device, and its chosen mode.
#[derive(Clone, Debug, PartialEq)]
pub struct PeerConfig {
    pub fingerprint: String,
    pub name: String,
    /// Which edge of this host's screen the peer sits past.
    pub edge: ScreenEdge,
    /// Position along the shared edge, `0.0..=1.0`, as the `f32` bit pattern.
    pub offset_bits: u32,
    pub mode: Mode,
}

#[derive(Clone, Debug, PartialEq)]
pub struct AppConfig {
    pub device_name: String,
    pub control_port: u16,
    pub realtime_port: u16,
    /// Human-readable hotkey that yanks control back to this machine.
    pub snap_home_hotkey: String,
    pub peers: Vec<PeerConfig>,
}

/// The first position of a peer with fingerprint `fp`.
pub open spec fn peer_index(peers: Seq<PeerConfig>, fp: Seq<char>) -> Option<int>
    decreases peers.len(),
{
    if peers.len() == 0 {
        None
    } else if peers[0].fingerprint@ == fp {
        Some(0)
    } else {
        match peer_index(peers.drop_first(), fp) {
            Some(i) => Some(i + 1),
            None => None,
        }
    }
}

/// The peers after inserting or updating `p` (by fingerprint).
pub open spec fn upserted(peers: Seq<PeerConfig>, p: PeerConfig) -> Seq<PeerConfig> {
    match peer_index(peers, p.fingerprint@) {
        Some(i) => peers.update(i, p),
        None => peers.push(p),
    }
}

proof fn lemma_peer_index(peers: Seq<PeerConfig>, fp: Seq<char>)
    ensures
        peer_index(peers, fp) matches Some(i) ==> 0 <= i < peers.len() && peers[i].fingerprint@
            == fp && forall|j: int| 0 <= j < i ==> (#[trigger] peers[j]).fingerprint@ != fp,
        peer_index(peers, fp) is None ==> forall|j: int|
            0 <= j < peers.len() ==> (#[trigger] peers[j]).fingerprint@ != fp,
    decreases peers.len(),
{
    if peers.len() > 0 {
        lemma_peer_index(peers.drop_first(), fp);
        assert forall|j: int| 1 <= j < peers.len() implies #[trigger] peers[j] == peers.drop_first()[j
            - 1] by {}
    }
}

/// After an upsert, looking the peer up finds exactly the new entry, and a peer
/// that was already there is replaced rather than duplicated.
pub proof fn law_upsert_replaces(peers: Seq<PeerConfig>, p: PeerConfig)
    ensures
        peer_index(upserted(peers, p), p.fingerprint@) matches Some(i) && upserted(
            peers,
            p,
        )[i] == p,
        peer_index(peers, p.fingerprint@) is Some ==> upserted(peers, p).len() == peers.len(),
        peer_index(peers, p.fingerprint@) is None ==> upserted(peers, p).len() == peers.len() + 1,
{
    lemma_peer_index(peers, p.fingerprint@);
    let u = upserted(peers, p);
    lemma_peer_index(u, p.fingerprint@);
    match peer_index(peers, p.fingerprint@) {
        Some(i) => {
            assert(u[i].fingerprint@ == p.fingerprint@);
            assert forall|j: int| 0 <= j < i implies (#[trigger] u[j]).fingerprint@ != p.fingerprint@ by {
                assert(u[j] == peers[j]);
            }
            if let Some(k) = peer_index(u, p.fingerprint@) {
                assert(k == i);
            }
        },
        None => {
            let n = peers.len() as int;
            assert(u[n].fingerprint@ == p.fingerprint@);
            assert forall|j: int| 0 <= j < n implies (#[trigger] u[j]).fingerprint@ != p.fingerprint@ by {
                assert(u[j] == peers[j]);
            }
            if let Some(k) = peer_index(u, p.fingerprint@) {
                assert(k == n);
            }
        },
    }
}

impl AppConfig {
    /// The defaults, for a device called `device_name`.
    pub fn new(device_name: String) -> (c: Self)
        ensures
            c.device_name == device_name,
            c.control_port == DEFAULT_CONTROL_PORT,
            c.realtime_port == DEFAULT_REALTIME_PORT,
            c.snap_home_hotkey@ == "Ctrl+Alt+Home"@,
            c.peers@.len() == 0,
    {
        proof {
            reveal_strlit("Ctrl+Alt+Home");
        }
        AppConfig {
            device_name,
            control_port: DEFAULT_CONTROL_PORT,
            realtime_port: DEFAULT_REALTIME_PORT,
            snap_home_hotkey: String::from_str("Ctrl+Alt+Home"),
            peers: Vec::new(),
        }
    }

    fn find_peer(&self, fingerprint: &str) -> (r: Option<usize>)
        ensures
            r matches Some(i) ==> i < self.peers@.len() && peer_index(self.peers@, fingerprint@)
                == Some(i as int),
            r is None ==> peer_index(self.peers@, fingerprint@) is None,
    {
        proof {
            lemma_peer_index(self.peers@, fingerprint@);
        }
        let ghost found = peer_index(self.peers@, fingerprint@);
        let key = String::from_str(fingerprint);
        let mut i: usize = 0;
        while i < self.peers.len()
            invariant
                i <= self.peers@.len(),
                key@ == fingerprint@,
                found == peer_index(self.peers@, fingerprint@),
                found matches Some(k) ==> 0 <= k < self.peers@.len() && self.peers@[k].fingerprint@
                    == fingerprint@ && forall|j: int|
                    0 <= j < k ==> (#[trigger] self.peers@[j]).fingerprint@ != fingerprint@,
                found is None ==> forall|j: int|
                    0 <= j < self.peers@.len() ==> (#[trigger] self.peers@[j]).fingerprint@
                        != fingerprint@,
                forall|j: int| 0 <= j < i ==> (#[trigger] self.peers@[j]).fingerprint@ != key@,
            decreases self.peers@.len() - i,
        {
            if self.peers[i].fingerprint == key {
                proof {
                    if let Some(k) = found {
                        if k < i {
                            assert(self.peers@[k].fingerprint@ != key@);
                        }
                        if k > i {
                            assert(self.peers@[i as int].fingerprint@ != fingerprint@);
                        }
                    }
                }
                return Some(i);
            }
            i = i + 1;
        }
        proof {
            if let Some(k) = found {
                assert(self.peers@[k].fingerprint@ != key@);
            }
        }
        None
    }

    /// The first peer entry with this fingerprint.
    pub fn peer(&self, fingerprint: &str) -> (r: Option<&PeerConfig>)
        ensures
            match peer_index(self.peers@, fingerprint@) {
                Some(i) => (r matches Some(p) && *p == self.peers@[i]),
                None => r is None,
            },
    {
        match self.find_peer(fingerprint) {
            Some(i) => Some(&self.peers[i]),
            None => None,
        }
    }

    /// The first peer entry with this fingerprint, for editing in place.
    pub fn peer_mut(&mut self, fingerprint: &str) -> (r: Option<&mut PeerConfig>)
        ensures
            match peer_index(old(self).peers@, fingerprint@) {
                Some(i) => r matches Some(p) && {
                    &&& *p == old(self).peers@[i]
                    &&& final(self).peers@ == old(self).peers@.update(i, *final(p))
                },
                None => r is None && final(self).peers@ == old(self).peers@,
            },
            final(self).device_name == old(self).device_name,
            final(self).control_port == old(self).control_port,
            final(self).realtime_port == old(self).realtime_port,
            final(self).snap_home_hotkey == old(self).snap_home_hotkey,
    {
        match self.find_peer(fingerprint) {
            Some(i) => Some(&mut self.peers[i]),
            None => None,
        }
    }

    /// Insert or update a peer's arrangement entry.
    pub fn upsert_peer(&mut self, peer: PeerConfig)
        ensures
            final(self).peers@ == upserted(old(self).peers@, peer),
            final(self).device_name == old(self).device_name,
            final(self).control_port == old(self).control_port,
            final(self).realtime_port == old(self).realtime_port,
            final(self).snap_home_hotkey == old(self).snap_home_hotkey,
    {
        match self.find_peer(peer.fingerprint.as_str()) {
            Some(i) => {
                self.peers.set(i, peer);
            },
            None => {
                self.peers.push(peer);
            },
        }
    }
}

/// The friendly name used when the OS offers none.
pub open spec fn fallback_device_name() -> Seq<char> {
    "ScreenLink device"@
}

/// Pick the device name from the `COMPUTERNAME` and `HOSTNAME` environment
/// variables: the first one set, unless it is empty, else a fixed fallback.
pub fn choose_device_name(computername: Option<String>, hostname: Option<String>) -> (r: String)
    ensures
        r@ == match (if computername is Some { computername } else { hostname }) {
            Some(n) => if n@.len() > 0 { n@ } else { fallback_device_name() },
            None => fallback_device_name(),
        },
{
    proof {
        reveal_strlit("ScreenLink device");
    }
    let chosen = match computername {
        Some(n) => Some(n),
        None => hostname,
    };
    match chosen {
        Some(n) => {
            if n.as_str().is_empty() {
                String::from_str("ScreenLink device")
            } else {
                n
            }
        },
        None => String::from_str("ScreenLink device"),
    }
}

} // verus!
