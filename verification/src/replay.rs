//! Anti-replay sliding window (RFC 3711 style) over the last 64 sequence
//! numbers of the realtime channel.

use vstd::prelude::*;

verus! {

/// How many sequence numbers behind the highest one the window still tracks.
pub const REPLAY_WINDOW_WIDTH: u64 = 64;

/// Bit `i` of `b`.
pub open spec fn bit(b: u64, i: u64) -> bool {
    (b >> i) & 1u64 == 1u64
}

proof fn lemma_bit_of_one(i: u64)
    requires
        i < 64,
    ensures
        bit(1u64, i) <==> i == 0,
{
    assert(((1u64 >> i) & 1u64 == 1u64) <==> i == 0) by (bit_vector)
        requires
            i < 64,
    ;
}

proof fn lemma_bit_of_shift_or_one(b: u64, s: u64, i: u64)
    requires
        0 < s < 64,
        i < 64,
    ensures
        bit((b << s) | 1u64, i) <==> (i == 0 || (i >= s && bit(b, (i - s) as u64))),
{
    assert(((((b << s) | 1u64) >> i) & 1u64 == 1u64) <==> (i == 0 || (i >= s && ((b >> ((i
        - s) as u64)) & 1u64 == 1u64)))) by (bit_vector)
        requires
            0 < s < 64,
            i < 64,
    ;
}

proof fn lemma_bit_of_or_mask(b: u64, d: u64, i: u64)
    requires
        d < 64,
        i < 64,
    ensures
        bit(b | (1u64 << d), i) <==> (bit(b, i) || i == d),
{
    assert((((b | (1u64 << d)) >> i) & 1u64 == 1u64) <==> (((b >> i) & 1u64 == 1u64) || i == d))
        by (bit_vector)
        requires
            d < 64,
            i < 64,
    ;
}

proof fn lemma_mask_test(b: u64, d: u64)
    requires
        d < 64,
    ensures
        (b & (1u64 << d) != 0u64) <==> bit(b, d),
{
    assert((b & (1u64 << d) != 0u64) <==> ((b >> d) & 1u64 == 1u64)) by (bit_vector)
        requires
            d < 64,
    ;
}

/// Anti-replay window. Besides the executable state (the highest sequence number
/// seen and a 64-bit bitmap of the recent ones) it carries, as ghost state, the
/// set of every sequence number it has ever accepted.
pub struct ReplayWindow {
    highest: u64,
    bitmap: u64,
    seen_any: bool,
    accepted: Ghost<Set<u64>>,
}

impl ReplayWindow {
    /// Every sequence number this window has accepted so far.
    pub closed spec fn accepted(&self) -> Set<u64> {
        self.accepted@
    }

    /// The highest sequence number accepted so far, if any.
    pub closed spec fn highest(&self) -> Option<u64> {
        if self.seen_any {
            Some(self.highest)
        } else {
            None
        }
    }

    /// The window's internal consistency: the bitmap records exactly which of
    /// the 64 most recent sequence numbers were accepted.
    pub closed spec fn wf(&self) -> bool {
        &&& self.accepted@.finite()
        &&& (self.seen_any <==> !self.accepted@.is_empty())
        &&& self.seen_any ==> {
            &&& self.accepted@.contains(self.highest)
            &&& forall|s: u64| #[trigger] self.accepted@.contains(s) ==> s <= self.highest
            &&& forall|i: u64|
                i < REPLAY_WINDOW_WIDTH ==> (#[trigger] bit(self.bitmap, i) <==> (i
                    <= self.highest && self.accepted@.contains((self.highest - i) as u64)))
        }
    }

    /// Whether `accept(seq)` takes `seq`: the first packet always; afterwards any
    /// packet newer than the highest, or one at most 63 behind it that was not
    /// taken before.
    pub open spec fn accepts(&self, seq: u64) -> bool {
        match self.highest() {
            None => true,
            Some(h) => seq > h || (h - seq < REPLAY_WINDOW_WIDTH && !self.accepted().contains(
                seq,
            )),
        }
    }

    /// A sequence number once accepted is never accepted again.
    pub proof fn lemma_accepted_is_refused(&self, seq: u64)
        requires
            self.wf(),
            self.accepted().contains(seq),
        ensures
            !self.accepts(seq),
    {
    }

    /// The highest sequence number is the largest one accepted: there is one
    /// exactly when something has been accepted, it was itself accepted, and no
    /// accepted number exceeds it.
    pub proof fn lemma_highest_is_max(&self)
        requires
            self.wf(),
        ensures
            self.highest() is None <==> self.accepted().is_empty(),
            self.accepted().finite(),
            self.highest() matches Some(h) ==> self.accepted().contains(h) && forall|s: u64|
                #[trigger] self.accepted().contains(s) ==> s <= h,
    {
    }

    /// An empty window.
    pub fn new() -> (w: Self)
        ensures
            w.wf(),
            w.accepted() == Set::<u64>::empty(),
            w.highest() == None::<u64>,
    {
        ReplayWindow { highest: 0, bitmap: 0, seen_any: false, accepted: Ghost(Set::empty()) }
    }

    /// Record `seq`; return `false` if it is a replay or older than the window.
    pub fn accept(&mut self, seq: u64) -> (r: bool)
        requires
            old(self).wf(),
        ensures
            final(self).wf(),
            r == old(self).accepts(seq),
            r ==> !old(self).accepted().contains(seq),
            r ==> final(self).accepted() == old(self).accepted().insert(seq),
            r ==> final(self).highest() == Some(
                match old(self).highest() {
                    Some(h) => if seq > h { seq } else { h },
                    None => seq,
                },
            ),
            !r ==> final(self).accepted() == old(self).accepted(),
            !r ==> final(self).highest() == old(self).highest(),
    {
        if !self.seen_any {
            let ghost acc = Set::<u64>::empty().insert(seq);
            *self = ReplayWindow { highest: seq, bitmap: 1, seen_any: true, accepted: Ghost(acc) };
            assert forall|i: u64| i < REPLAY_WINDOW_WIDTH implies (#[trigger] bit(self.bitmap, i)
                <==> (i <= self.highest && self.accepted@.contains((self.highest - i) as u64))) by {
                lemma_bit_of_one(i);
            }
            return true;
        }
        let ghost old_w = *self;
        if seq > self.highest {
            let shift = seq - self.highest;
            let new_bitmap: u64 = if shift >= REPLAY_WINDOW_WIDTH {
                1
            } else {
                (self.bitmap << shift) | 1
            };
            let ghost acc = self.accepted@.insert(seq);
            *self = ReplayWindow {
                highest: seq,
                bitmap: new_bitmap,
                seen_any: true,
                accepted: Ghost(acc),
            };
            assert forall|i: u64| i < REPLAY_WINDOW_WIDTH implies (#[trigger] bit(self.bitmap, i)
                <==> (i <= self.highest && self.accepted@.contains((self.highest - i) as u64))) by {
                if shift >= REPLAY_WINDOW_WIDTH {
                    lemma_bit_of_one(i);
                    if i > 0 && i <= seq {
                        let s = (seq - i) as u64;
                        if old_w.accepted@.contains(s) {
                            assert(s <= old_w.highest);
                        }
                    }
                } else {
                    lemma_bit_of_shift_or_one(old_w.bitmap, shift, i);
                    if i >= shift {
                        let j = (i - shift) as u64;
                        assert(bit(old_w.bitmap, j) <==> (j <= old_w.highest
                            && old_w.accepted@.contains((old_w.highest - j) as u64)));
                        assert((old_w.highest - j) as u64 == (seq - i) as u64);
                    } else if i > 0 && i <= seq {
                        let s = (seq - i) as u64;
                        if old_w.accepted@.contains(s) {
                            assert(s <= old_w.highest);
                        }
                    }
                }
            }
            assert(!old_w.accepted@.contains(seq)) by {
                if old_w.accepted@.contains(seq) {
                    assert(seq <= old_w.highest);
                }
            }
            true
        } else {
            let diff = self.highest - seq;
            if diff >= REPLAY_WINDOW_WIDTH {
                return false;
            }
            let mask: u64 = 1u64 << diff;
            proof {
                lemma_mask_test(self.bitmap, diff);
            }
            assert(bit(self.bitmap, diff) <==> self.accepted@.contains(seq));
            if self.bitmap & mask != 0 {
                false
            } else {
                let ghost acc = self.accepted@.insert(seq);
                *self = ReplayWindow {
                    highest: self.highest,
                    bitmap: self.bitmap | mask,
                    seen_any: true,
                    accepted: Ghost(acc),
                };
                assert forall|i: u64| i < REPLAY_WINDOW_WIDTH implies (#[trigger] bit(
                    self.bitmap,
                    i,
                ) <==> (i <= self.highest && self.accepted@.contains(
                    (self.highest - i) as u64,
                ))) by {
                    lemma_bit_of_or_mask(old_w.bitmap, diff, i);
                    assert(bit(old_w.bitmap, i) <==> (i <= old_w.highest
                        && old_w.accepted@.contains((old_w.highest - i) as u64)));
                }
                true
            }
        }
    }
}

impl Default for ReplayWindow {
    fn default() -> (w: Self)
        ensures
            w.wf(),
            w.accepted() == Set::<u64>::empty(),
            w.highest() == None::<u64>,
    {
        ReplayWindow::new()
    }
}

} // verus!
