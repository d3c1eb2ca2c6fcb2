//! The set of paired (trusted) devices, keyed by certificate fingerprint.
//!
//! The store itself is pure data; `app/` keeps one behind a lock and persists it
//! to disk after every change.

use vstd::prelude::*;

verus! {

#[derive(Clone, Debug, PartialEq, Eq)]
pub struct TrustedDevice {
    pub fingerprint: String,
    pub name: String,
}

/// Whether no fingerprint occurs twice.
pub open spec fn unique_fingerprints(devs: Seq<TrustedDevice>) -> bool {
    forall|i: int, j: int|
        0 <= i < devs.len() && 0 <= j < devs.len() && i != j ==> (#[trigger] devs[i]).fingerprint@
            != (#[trigger] devs[j]).fingerprint@
}

/// Whether some device has fingerprint `fp`.
pub open spec fn has_fingerprint(devs: Seq<TrustedDevice>, fp: Seq<char>) -> bool {
    exists|i: int| 0 <= i < devs.len() && (#[trigger] devs[i]).fingerprint@ == fp
}

/// The fingerprint-to-name map a list of devices describes.
pub open spec fn device_map(devs: Seq<TrustedDevice>) -> Map<Seq<char>, Seq<char>> {
    Map::new(
        |fp: Seq<char>| has_fingerprint(devs, fp),
        |fp: Seq<char>|
            devs[choose|i: int| 0 <= i < devs.len() && (#[trigger] devs[i]).fingerprint@ == fp].name@,
    )
}

proof fn lemma_device_map_at(devs: Seq<TrustedDevice>, i: int)
    requires
        unique_fingerprints(devs),
        0 <= i < devs.len(),
    ensures
        device_map(devs).dom().contains(devs[i].fingerprint@),
        device_map(devs)[devs[i].fingerprint@] == devs[i].name@,
{
    let fp = devs[i].fingerprint@;
    assert(has_fingerprint(devs, fp));
    let j = choose|j: int| 0 <= j < devs.len() && (#[trigger] devs[j]).fingerprint@ == fp;
    assert(j == i);
}

/// The trusted devices. `view()` is the fingerprint-to-name map.
pub struct TrustStore {
    devices: Vec<TrustedDevice>,
}

impl View for TrustStore {
    type V = Map<Seq<char>, Seq<char>>;

    closed spec fn view(&self) -> Map<Seq<char>, Seq<char>> {
        device_map(self.devices@)
    }
}

impl TrustStore {
    /// No fingerprint is listed twice.
    #[verifier::type_invariant]
    closed spec fn wf(self) -> bool {
        unique_fingerprints(self.devices@)
    }

    /// An empty store.
    pub fn in_memory() -> (s: Self)
        ensures
            s@ == Map::<Seq<char>, Seq<char>>::empty(),
    {
        let s = TrustStore { devices: Vec::new() };
        assert(s@ =~= Map::<Seq<char>, Seq<char>>::empty());
        s
    }

    /// Build a store from saved devices; where a fingerprint repeats, the later
    /// entry wins.
    pub fn from_devices(devs: Vec<TrustedDevice>) -> (s: Self)
        ensures
            s@ == device_map_last_wins(devs@),
    {
        let mut s = TrustStore::in_memory();
        let mut i: usize = 0;
        while i < devs.len()
            invariant
                i <= devs@.len(),
                s@ == device_map_last_wins(devs@.subrange(0, i as int)),
            decreases devs@.len() - i,
        {
            let d = &devs[i];
            s.trust(d.fingerprint.as_str(), d.name.as_str());
            assert(devs@.subrange(0, i + 1).drop_last() =~= devs@.subrange(0, i as int));
            i = i + 1;
        }
        assert(devs@.subrange(0, devs@.len() as int) =~= devs@);
        s
    }

    fn find(&self, fingerprint: &str) -> (r: Option<usize>)
        ensures
            r matches Some(i) ==> i < self.devices@.len() && self.devices@[i as int].fingerprint@
                == fingerprint@,
            r is None ==> !has_fingerprint(self.devices@, fingerprint@),
    {
        let key = String::from_str(fingerprint);
        let mut i: usize = 0;
        while i < self.devices.len()
            invariant
                i <= self.devices@.len(),
                key@ == fingerprint@,
                forall|j: int| 0 <= j < i ==> (#[trigger] self.devices@[j]).fingerprint@ != key@,
            decreases self.devices@.len() - i,
        {
            if self.devices[i].fingerprint == key {
                return Some(i);
            }
            i = i + 1;
        }
        None
    }

    pub fn is_trusted(&self, fingerprint: &str) -> (r: bool)
        ensures
            r == self@.dom().contains(fingerprint@),
    {
        self.find(fingerprint).is_some()
    }

    pub fn get(&self, fingerprint: &str) -> (r: Option<TrustedDevice>)
        ensures
            r is Some <==> self@.dom().contains(fingerprint@),
            r matches Some(d) ==> d.fingerprint@ == fingerprint@ && d.name@
                == self@[fingerprint@],
    {
        proof {
            use_type_invariant(self);
        }
        match self.find(fingerprint) {
            Some(i) => {
                proof {
                    lemma_device_map_at(self.devices@, i as int);
                }
                let d = &self.devices[i];
                Some(TrustedDevice { fingerprint: d.fingerprint.clone(), name: d.name.clone() })
            },
            None => None,
        }
    }

    /// Add or update a trusted device.
    pub fn trust(&mut self, fingerprint: &str, name: &str)
        ensures
            final(self)@ == old(self)@.insert(fingerprint@, name@),
    {
        proof {
            use_type_invariant(&*self);
        }
        let dev = TrustedDevice {
            fingerprint: String::from_str(fingerprint),
            name: String::from_str(name),
        };
        let ghost old_devs = self.devices@;
        match self.find(fingerprint) {
            Some(i) => {
                let mut devs: Vec<TrustedDevice> = Vec::new();
                std::mem::swap(&mut devs, &mut self.devices);
                devs.set(i, dev);
                assert(devs@[i as int].fingerprint@ == old_devs[i as int].fingerprint@);
                assert forall|a: int, b: int|
                    0 <= a < devs@.len() && 0 <= b < devs@.len() && a != b implies (#[trigger] devs@[a]).fingerprint@
                        != (#[trigger] devs@[b]).fingerprint@ by {
                    assert(devs@[a].fingerprint@ == old_devs[a].fingerprint@);
                    assert(devs@[b].fingerprint@ == old_devs[b].fingerprint@);
                }
                self.devices = devs;
                let ghost new_devs = self.devices@;
                assert forall|fp: Seq<char>| #![auto]
                    device_map(new_devs).dom().contains(fp) <==> old(self)@.insert(
                        fingerprint@,
                        name@,
                    ).dom().contains(fp) by {
                    if has_fingerprint(old_devs, fp) {
                        let k = choose|k: int|
                            0 <= k < old_devs.len() && (#[trigger] old_devs[k]).fingerprint@ == fp;
                        assert(new_devs[k].fingerprint@ == fp);
                    }
                    if has_fingerprint(new_devs, fp) {
                        let k = choose|k: int|
                            0 <= k < new_devs.len() && (#[trigger] new_devs[k]).fingerprint@ == fp;
                        assert(old_devs[k].fingerprint@ == fp);
                    }
                }
                assert forall|fp: Seq<char>| #[trigger]
                    device_map(new_devs).dom().contains(fp) implies device_map(new_devs)[fp]
                    == old(self)@.insert(fingerprint@, name@)[fp] by {
                    let k = choose|k: int|
                        0 <= k < new_devs.len() && (#[trigger] new_devs[k]).fingerprint@ == fp;
                    lemma_device_map_at(new_devs, k);
                    if k != i {
                        lemma_device_map_at(old_devs, k);
                    }
                }
                assert(self@ =~= old(self)@.insert(fingerprint@, name@));
            },
            None => {
                let mut devs: Vec<TrustedDevice> = Vec::new();
                std::mem::swap(&mut devs, &mut self.devices);
                devs.push(dev);
                assert forall|a: int, b: int|
                    0 <= a < devs@.len() && 0 <= b < devs@.len() && a != b implies (#[trigger] devs@[a]).fingerprint@
                        != (#[trigger] devs@[b]).fingerprint@ by {
                    if a == old_devs.len() {
                        assert(old_devs[b] == devs@[b]);
                    } else if b == old_devs.len() {
                        assert(old_devs[a] == devs@[a]);
                    } else {
                        assert(old_devs[a] == devs@[a]);
                        assert(old_devs[b] == devs@[b]);
                    }
                }
                self.devices = devs;
                let ghost new_devs = self.devices@;
                assert forall|fp: Seq<char>| #![auto]
                    device_map(new_devs).dom().contains(fp) <==> old(self)@.insert(
                        fingerprint@,
                        name@,
                    ).dom().contains(fp) by {
                    if has_fingerprint(old_devs, fp) {
                        let k = choose|k: int|
                            0 <= k < old_devs.len() && (#[trigger] old_devs[k]).fingerprint@ == fp;
                        assert(new_devs[k].fingerprint@ == fp);
                    }
                    if fp == fingerprint@ {
                        assert(new_devs[old_devs.len() as int].fingerprint@ == fp);
                    }
                    if has_fingerprint(new_devs, fp) && fp != fingerprint@ {
                        let k = choose|k: int|
                            0 <= k < new_devs.len() && (#[trigger] new_devs[k]).fingerprint@ == fp;
                        assert(old_devs[k].fingerprint@ == fp);
                    }
                }
                assert forall|fp: Seq<char>| #[trigger]
                    device_map(new_devs).dom().contains(fp) implies device_map(new_devs)[fp]
                    == old(self)@.insert(fingerprint@, name@)[fp] by {
                    let k = choose|k: int|
                        0 <= k < new_devs.len() && (#[trigger] new_devs[k]).fingerprint@ == fp;
                    lemma_device_map_at(new_devs, k);
                    if k < old_devs.len() {
                        lemma_device_map_at(old_devs, k);
                    }
                }
                assert(self@ =~= old(self)@.insert(fingerprint@, name@));
            },
        }
    }

    /// Remove a device (unpair).
    pub fn revoke(&mut self, fingerprint: &str)
        ensures
            final(self)@ == old(self)@.remove(fingerprint@),
    {
        proof {
            use_type_invariant(&*self);
        }
        let ghost old_devs = self.devices@;
        match self.find(fingerprint) {
            Some(i) => {
                let mut devs: Vec<TrustedDevice> = Vec::new();
                std::mem::swap(&mut devs, &mut self.devices);
                devs.remove(i);
                assert forall|a: int, b: int|
                    0 <= a < devs@.len() && 0 <= b < devs@.len() && a != b implies (#[trigger] devs@[a]).fingerprint@
                        != (#[trigger] devs@[b]).fingerprint@ by {
                    let oa = if a < i { a } else { a + 1 };
                    let ob = if b < i { b } else { b + 1 };
                    assert(devs@[a] == old_devs[oa]);
                    assert(devs@[b] == old_devs[ob]);
                }
                self.devices = devs;
                let ghost new_devs = self.devices@;
                assert forall|k: int| 0 <= k < new_devs.len() implies #[trigger] new_devs[k] == if k
                    < i {
                    old_devs[k]
                } else {
                    old_devs[k + 1]
                } by {}
                assert forall|fp: Seq<char>| #![auto]
                    device_map(new_devs).dom().contains(fp) <==> old(self)@.remove(
                        fingerprint@,
                    ).dom().contains(fp) by {
                    if has_fingerprint(old_devs, fp) && fp != fingerprint@ {
                        let k = choose|k: int|
                            0 <= k < old_devs.len() && (#[trigger] old_devs[k]).fingerprint@ == fp;
                        if k < i {
                            assert(new_devs[k].fingerprint@ == fp);
                        } else {
                            assert(new_devs[k - 1].fingerprint@ == fp);
                        }
                    }
                    if has_fingerprint(new_devs, fp) {
                        let k = choose|k: int|
                            0 <= k < new_devs.len() && (#[trigger] new_devs[k]).fingerprint@ == fp;
                        if k < i {
                            assert(old_devs[k].fingerprint@ == fp);
                        } else {
                            assert(old_devs[k + 1].fingerprint@ == fp);
                        }
                    }
                }
                assert forall|fp: Seq<char>| #[trigger]
                    device_map(new_devs).dom().contains(fp) implies device_map(new_devs)[fp]
                    == old(self)@.remove(fingerprint@)[fp] by {
                    let k = choose|k: int|
                        0 <= k < new_devs.len() && (#[trigger] new_devs[k]).fingerprint@ == fp;
                    lemma_device_map_at(new_devs, k);
                    if k < i {
                        lemma_device_map_at(old_devs, k);
                    } else {
                        lemma_device_map_at(old_devs, k + 1);
                    }
                }
                assert(self@ =~= old(self)@.remove(fingerprint@));
            },
            None => {
                assert(self@ =~= old(self)@.remove(fingerprint@));
            },
        }
    }

    /// All trusted devices, each fingerprint once.
    pub fn list(&self) -> (r: Vec<TrustedDevice>)
        ensures
            unique_fingerprints(r@),
            device_map(r@) == self@,
            r@.len() == self@.dom().len(),
    {
        proof {
            use_type_invariant(self);
        }
        let mut out: Vec<TrustedDevice> = Vec::new();
        let mut i: usize = 0;
        while i < self.devices.len()
            invariant
                i <= self.devices@.len(),
                out@ == self.devices@.subrange(0, i as int),
            decreases self.devices@.len() - i,
        {
            let d = &self.devices[i];
            out.push(TrustedDevice { fingerprint: d.fingerprint.clone(), name: d.name.clone() });
            assert(out@ =~= self.devices@.subrange(0, i + 1));
            i = i + 1;
        }
        assert(out@ =~= self.devices@);
        proof {
            lemma_unique_len(self.devices@);
        }
        out
    }
}

/// The map a saved list describes when a later entry overrides an earlier one
/// with the same fingerprint.
pub open spec fn device_map_last_wins(devs: Seq<TrustedDevice>) -> Map<Seq<char>, Seq<char>>
    decreases devs.len(),
{
    if devs.len() == 0 {
        Map::empty()
    } else {
        device_map_last_wins(devs.drop_last()).insert(devs.last().fingerprint@, devs.last().name@)
    }
}

/// With distinct fingerprints, the map has one entry per device.
proof fn lemma_unique_len(devs: Seq<TrustedDevice>)
    requires
        unique_fingerprints(devs),
    ensures
        device_map(devs).dom().len() == devs.len(),
        device_map(devs).dom().finite(),
    decreases devs.len(),
{
    let dom = device_map(devs).dom();
    if devs.len() == 0 {
        assert(dom =~= Set::<Seq<char>>::empty());
    } else {
        let init = devs.drop_last();
        assert(unique_fingerprints(init)) by {
            assert forall|i: int, j: int|
                0 <= i < init.len() && 0 <= j < init.len() && i != j implies (#[trigger] init[i]).fingerprint@
                != (#[trigger] init[j]).fingerprint@ by {
                assert(init[i] == devs[i] && init[j] == devs[j]);
            }
        }
        lemma_unique_len(init);
        let last = devs.last().fingerprint@;
        let idom = device_map(init).dom();
        assert(!idom.contains(last)) by {
            if idom.contains(last) {
                let k = choose|k: int| 0 <= k < init.len() && (#[trigger] init[k]).fingerprint@ == last;
                assert(devs[k].fingerprint@ == last);
                assert(devs[devs.len() - 1].fingerprint@ == last);
            }
        }
        assert forall|fp: Seq<char>| dom.contains(fp) <==> #[trigger] idom.insert(last).contains(fp) by {
            if has_fingerprint(devs, fp) && fp != last {
                let k = choose|k: int| 0 <= k < devs.len() && (#[trigger] devs[k]).fingerprint@ == fp;
                assert(k < devs.len() - 1);
                assert(init[k].fingerprint@ == fp);
            }
            if idom.contains(fp) {
                let k = choose|k: int| 0 <= k < init.len() && (#[trigger] init[k]).fingerprint@ == fp;
                assert(devs[k].fingerprint@ == fp);
            }
            if fp == last {
                assert(devs[devs.len() - 1].fingerprint@ == fp);
            }
        }
        assert(dom =~= idom.insert(last));
    }
}

/// Trusting a device and then revoking it: while trusted it is found under its
/// name, afterwards it is not trusted, and every other device is as before.
pub proof fn law_trust_revoke_roundtrip(
    store: Map<Seq<char>, Seq<char>>,
    fingerprint: Seq<char>,
    name: Seq<char>,
)
    ensures
        store.insert(fingerprint, name).dom().contains(fingerprint),
        store.insert(fingerprint, name)[fingerprint] == name,
        !store.insert(fingerprint, name).remove(fingerprint).dom().contains(fingerprint),
        forall|other: Seq<char>|
            other != fingerprint ==> (#[trigger] store.insert(fingerprint, name).remove(fingerprint).dom().contains(other)
                <==> store.dom().contains(other)),
{
}

} // verus!
