//! Encrypted realtime channel (UDP) crypto.
//!
//! Each packet is `seq(8, big-endian) || ChaCha20-Poly1305(ciphertext || tag)`.
//! The 32-byte key is exported from the authenticated TLS session, the epoch
//! (big-endian) is the associated data, the nonce is a 4-byte per-direction salt
//! followed by the sequence number, and a sliding replay window rejects
//! re-injected or stale packets.

use vstd::prelude::*;
use crate::bytes::{be64, from_be64, u64_to_be, u64_from_be, lemma_be64_roundtrip};
use crate::crypto::{
    aead_max_msg, chacha20poly1305_open, chacha20poly1305_seal, chacha_decrypt, chacha_encrypt,
};
use crate::error::{CoreError, CryptoError};
use crate::replay::ReplayWindow;

verus! {

/// Length of the cleartext sequence-number header.
pub const SEQ_LEN: usize = 8;

/// Nonce salt of the initiating side (the controller).
pub open spec fn initiator_salt() -> Seq<u8> {
    seq![0x53u8, 0x4cu8, 0x01u8, 0x00u8]
}

/// Nonce salt of the responding side (the controlled device).
pub open spec fn responder_salt() -> Seq<u8> {
    seq![0x53u8, 0x4cu8, 0x02u8, 0x00u8]
}

/// The 12-byte nonce: salt, then the big-endian sequence number.
pub open spec fn nonce_of(salt: Seq<u8>, seq: u64) -> Seq<u8> {
    salt + be64(seq)
}

/// `seq + 1`, wrapping at `u64::MAX`.
pub open spec fn next_seq(seq: u64) -> u64 {
    if seq == u64::MAX {
        0
    } else {
        (seq + 1) as u64
    }
}

/// Sealing/opening context for one peer connection's realtime channel.
pub struct RealtimeCrypto {
    key: [u8; 32],
    send_salt: [u8; 4],
    recv_salt: [u8; 4],
    send_seq: u64,
    replay: ReplayWindow,
    aad: [u8; 8],
}

impl RealtimeCrypto {
    pub closed spec fn key(&self) -> Seq<u8> {
        self.key@
    }

    pub closed spec fn send_salt(&self) -> Seq<u8> {
        self.send_salt@
    }

    pub closed spec fn recv_salt(&self) -> Seq<u8> {
        self.recv_salt@
    }

    /// The sequence number the next sealed packet carries.
    pub closed spec fn send_seq(&self) -> u64 {
        self.send_seq
    }

    /// The associated data: the big-endian epoch.
    pub closed spec fn aad(&self) -> Seq<u8> {
        self.aad@
    }

    /// The replay window of the receiving direction.
    pub closed spec fn replay(&self) -> ReplayWindow {
        self.replay
    }

    pub closed spec fn wf(&self) -> bool {
        self.replay.wf()
    }

    /// `pkt` is the packet this context seals for `msg` at its current sequence
    /// number.
    pub open spec fn sealed_packet(&self, msg: Seq<u8>, pkt: Seq<u8>) -> bool {
        let n = nonce_of(self.send_salt(), self.send_seq());
        &&& pkt == be64(self.send_seq()) + chacha20poly1305_seal(self.key(), n, self.aad(), msg)
        &&& chacha20poly1305_open(self.key(), n, self.aad(), pkt.skip(8)) == Some(msg)
    }

    /// What `open` makes of `packet`: its sequence number and plaintext, or why
    /// it is refused.
    pub open spec fn open_outcome(&self, packet: Seq<u8>) -> Result<(u64, Seq<u8>), CryptoError> {
        if packet.len() < 8 {
            Err(CryptoError::ShortPacket)
        } else {
            let seq = from_be64(packet.subrange(0, 8));
            match chacha20poly1305_open(
                self.key(),
                nonce_of(self.recv_salt(), seq),
                self.aad(),
                packet.skip(8),
            ) {
                None => Err(CryptoError::Auth),
                Some(pt) => if self.replay().accepts(seq) {
                    Ok((seq, pt))
                } else {
                    Err(CryptoError::Replay { seq })
                },
            }
        }
    }

    /// `key` is the 32 bytes exported from the TLS session. `is_initiator` must
    /// be `true` on exactly one side, so the two directions use different nonce
    /// salts.
    pub fn new(key: [u8; 32], epoch: u64, is_initiator: bool) -> (r: Self)
        ensures
            r.wf(),
            r.key() == key@,
            r.aad() == be64(epoch),
            r.send_seq() == 0,
            r.send_salt() == if is_initiator { initiator_salt() } else { responder_salt() },
            r.recv_salt() == if is_initiator { responder_salt() } else { initiator_salt() },
            r.replay().accepted() == Set::<u64>::empty(),
            r.replay().highest() == None::<u64>,
    {
        let initiator: [u8; 4] = [0x53, 0x4c, 0x01, 0x00];
        let responder: [u8; 4] = [0x53, 0x4c, 0x02, 0x00];
        assert(initiator@ =~= initiator_salt());
        assert(responder@ =~= responder_salt());
        let (send_salt, recv_salt) = if is_initiator {
            (initiator, responder)
        } else {
            (responder, initiator)
        };
        RealtimeCrypto {
            key,
            send_salt,
            recv_salt,
            send_seq: 0,
            replay: ReplayWindow::new(),
            aad: u64_to_be(epoch),
        }
    }

    fn nonce(salt: &[u8; 4], seq: u64) -> (n: [u8; 12])
        ensures
            n@ == nonce_of(salt@, seq),
    {
        let s = u64_to_be(seq);
        let n = [salt[0], salt[1], salt[2], salt[3], s[0], s[1], s[2], s[3], s[4], s[5], s[6], s[7]];
        assert(n@ =~= nonce_of(salt@, seq));
        n
    }

    /// Seal a plaintext payload into a wire packet: `seq(8) || ciphertext || tag`.
    pub fn seal(&mut self, plaintext: &[u8]) -> (r: Result<Vec<u8>, CoreError>)
        requires
            old(self).wf(),
        ensures
            final(self).wf(),
            final(self).send_seq() == next_seq(old(self).send_seq()),
            final(self).key() == old(self).key(),
            final(self).aad() == old(self).aad(),
            final(self).send_salt() == old(self).send_salt(),
            final(self).recv_salt() == old(self).recv_salt(),
            final(self).replay() == old(self).replay(),
            plaintext@.len() < aead_max_msg() ==> r is Ok,
            r matches Ok(pkt) ==> old(self).sealed_packet(plaintext@, pkt@),
            r is Err ==> r == Err::<Vec<u8>, CoreError>(CoreError::Crypto(CryptoError::Seal)),
    {
        let seq = self.send_seq;
        self.send_seq = self.send_seq.wrapping_add(1);
        let nonce = Self::nonce(&self.send_salt, seq);
        match chacha_encrypt(&self.key, &nonce, &self.aad, plaintext) {
            Ok(ct) => {
                let hdr = u64_to_be(seq);
                let mut out: Vec<u8> = Vec::new();
                let mut i: usize = 0;
                while i < SEQ_LEN
                    invariant
                        i <= SEQ_LEN,
                        out@ == hdr@.subrange(0, i as int),
                    decreases SEQ_LEN - i,
                {
                    out.push(hdr[i]);
                    i = i + 1;
                    assert(out@ =~= hdr@.subrange(0, i as int));
                }
                let mut j: usize = 0;
                while j < ct.len()
                    invariant
                        j <= ct@.len(),
                        out@ == hdr@ + ct@.subrange(0, j as int),
                    decreases ct@.len() - j,
                {
                    out.push(ct[j]);
                    j = j + 1;
                    assert(out@ =~= hdr@ + ct@.subrange(0, j as int));
                }
                assert(ct@.subrange(0, ct@.len() as int) =~= ct@);
                assert(out@.skip(8) =~= ct@);
                Ok(out)
            },
            Err(_) => Err(CoreError::Crypto(CryptoError::Seal)),
        }
    }

    /// Open a wire packet, verifying integrity and rejecting replays or packets
    /// older than the window. Returns the sequence number and the plaintext.
    pub fn open(&mut self, packet: &[u8]) -> (r: Result<(u64, Vec<u8>), CoreError>)
        requires
            old(self).wf(),
        ensures
            final(self).wf(),
            final(self).send_seq() == old(self).send_seq(),
            final(self).key() == old(self).key(),
            final(self).aad() == old(self).aad(),
            final(self).send_salt() == old(self).send_salt(),
            final(self).recv_salt() == old(self).recv_salt(),
            match old(self).open_outcome(packet@) {
                Ok((seq, pt)) => {
                    &&& r matches Ok((s, p)) && s == seq && p@ == pt
                    &&& final(self).replay().accepted() == old(self).replay().accepted().insert(seq)
                    &&& final(self).replay().highest() == Some(
                        match old(self).replay().highest() {
                            Some(h) => if seq > h { seq } else { h },
                            None => seq,
                        },
                    )
                },
                Err(e) => {
                    &&& r == Err::<(u64, Vec<u8>), CoreError>(CoreError::Crypto(e))
                    &&& final(self).replay().accepted() == old(self).replay().accepted()
                    &&& final(self).replay().highest() == old(self).replay().highest()
                },
            },
    {
        if packet.len() < SEQ_LEN {
            return Err(CoreError::Crypto(CryptoError::ShortPacket));
        }
        let seq = u64_from_be(packet);
        let nonce = Self::nonce(&self.recv_salt, seq);
        let body = slice_skip(packet, SEQ_LEN);
        match chacha_decrypt(&self.key, &nonce, &self.aad, body) {
            Err(_) => Err(CoreError::Crypto(CryptoError::Auth)),
            Ok(pt) => {
                if !self.replay.accept(seq) {
                    return Err(CoreError::Crypto(CryptoError::Replay { seq }));
                }
                Ok((seq, pt))
            },
        }
    }
}

/// The bytes of `s` from index `n` on (`&s[n..]`).
fn slice_skip(s: &[u8], n: usize) -> (r: &[u8])
    requires
        n <= s@.len(),
    ensures
        r@ == s@.skip(n as int),
{
    let (_head, tail) = s.split_at(n);
    assert(tail@ =~= s@.skip(n as int));
    tail
}

/// A packet sealed by one side of a session opens on the other side to the same
/// sequence number and plaintext, provided both sides share the key and epoch,
/// the receiver's salt is the sender's, and the sequence number is fresh for the
/// receiver's replay window.
pub proof fn law_sealed_packet_opens(
    tx: RealtimeCrypto,
    rx: RealtimeCrypto,
    msg: Seq<u8>,
    pkt: Seq<u8>,
)
    requires
        tx.sealed_packet(msg, pkt),
        rx.key() == tx.key(),
        rx.aad() == tx.aad(),
        rx.recv_salt() == tx.send_salt(),
        rx.replay().accepts(tx.send_seq()),
    ensures
        rx.open_outcome(pkt) == Ok::<(u64, Seq<u8>), CryptoError>((tx.send_seq(), msg)),
{
    lemma_be64_roundtrip(tx.send_seq());
    let ct = chacha20poly1305_seal(
        tx.key(),
        nonce_of(tx.send_salt(), tx.send_seq()),
        tx.aad(),
        msg,
    );
    assert(pkt.subrange(0, 8) =~= be64(tx.send_seq()));
}

/// A sequence number the receiver has accepted once is refused ever after.
pub proof fn law_replayed_packet_refused(rx: RealtimeCrypto, packet: Seq<u8>)
    requires
        rx.wf(),
        packet.len() >= 8,
        rx.replay().accepted().contains(from_be64(packet.subrange(0, 8))),
    ensures
        rx.open_outcome(packet) is Err,
{
    let seq = from_be64(packet.subrange(0, 8));
    rx.replay().lemma_accepted_is_refused(seq);
}

} // verus!
