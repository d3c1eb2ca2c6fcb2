//! Numeric-comparison pairing (Bluetooth style).
//!
//! No PIN crosses the wire. Both devices derive the same 6-digit code from the
//! two certificate fingerprints they saw during the TLS handshake; the user
//! confirms the two screens agree. A man in the middle terminates two TLS
//! sessions with two different fingerprint pairs, so the codes would disagree.

use vstd::prelude::*;
use crate::bytes::{
    append_bytes, ascii_chars, ascii_string, bytes_le, decimal_bytes,
    decimal_digits, from_be32, lemma_decimal_digits_shape, lemma_digits_are_ascii,
    lemma_lex_le_antisymmetric, lex_le, u32_from_be,
};
use crate::crypto::{sha256, sha256_digest};
use crate::protocol::utf8_bytes;

verus! {

/// The domain-separation prefix `b"screenlink-pair-v1"`.
pub open spec fn pin_domain() -> Seq<u8> {
    seq![
        0x73u8, 0x63u8, 0x72u8, 0x65u8, 0x65u8, 0x6eu8, 0x6cu8, 0x69u8, 0x6eu8, 0x6bu8, 0x2du8,
        0x70u8, 0x61u8, 0x69u8, 0x72u8, 0x2du8, 0x76u8, 0x31u8,
    ]
}

/// The bytes hashed for a pair of fingerprints: the domain, the
/// lexicographically smaller fingerprint, a zero byte, the larger one.
pub open spec fn pin_message(a: Seq<u8>, b: Seq<u8>) -> Seq<u8> {
    let (lo, hi) = if lex_le(a, b) { (a, b) } else { (b, a) };
    pin_domain() + lo + seq![0u8] + hi
}

/// The comparison number: the first four digest bytes, big-endian, modulo one
/// million.
pub open spec fn pin_number(a: Seq<u8>, b: Seq<u8>) -> nat {
    (from_be32(sha256(pin_message(a, b)).subrange(0, 4)) % 1_000_000) as nat
}

/// The six-character comparison code for two fingerprints (given as UTF-8).
pub open spec fn pin_code(a: Seq<u8>, b: Seq<u8>) -> Seq<char> {
    ascii_chars(decimal_digits(pin_number(a, b), 6))
}

/// Derive the 6-digit comparison code from both fingerprints. Order-independent.
pub fn comparison_pin(fp_a: &str, fp_b: &str) -> (pin: String)
    ensures
        pin@ == pin_code(utf8_bytes(fp_a@), utf8_bytes(fp_b@)),
        pin@.len() == 6,
        forall|i: int| 0 <= i < 6 ==> '0' <= #[trigger] pin@[i] <= '9',
{
    let a = fp_a.as_bytes();
    let b = fp_b.as_bytes();
    let a_first = bytes_le(a, b);
    let (lo, hi) = if a_first { (a, b) } else { (b, a) };
    let domain: [u8; 18] = [
        0x73, 0x63, 0x72, 0x65, 0x65, 0x6e, 0x6c, 0x69, 0x6e, 0x6b, 0x2d, 0x70, 0x61, 0x69, 0x72,
        0x2d, 0x76, 0x31,
    ];
    assert(domain@ =~= pin_domain());
    let mut msg: Vec<u8> = Vec::new();
    append_bytes(&mut msg, &domain);
    append_bytes(&mut msg, lo);
    msg.push(0u8);
    append_bytes(&mut msg, hi);
    assert(msg@ =~= pin_message(utf8_bytes(fp_a@), utf8_bytes(fp_b@)));
    let d = sha256_digest(msg.as_slice());
    assert(d@.subrange(0, 4) =~= seq![d[0], d[1], d[2], d[3]]);
    let n = u32_from_be(d[0], d[1], d[2], d[3]) % 1_000_000;
    let digits = decimal_bytes(n as u64, 6);
    proof {
        lemma_digits_are_ascii(n as nat, 6);
        lemma_decimal_digits_shape(n as nat, 6);
    }
    let pin = ascii_string(digits.as_slice());
    assert forall|i: int| 0 <= i < 6 implies '0' <= #[trigger] pin@[i] <= '9' by {
        assert(0x30 <= digits@[i] <= 0x39);
    }
    pin
}

/// The comparison code does not depend on which side computes it.
pub proof fn law_pin_is_order_independent(a: Seq<u8>, b: Seq<u8>)
    ensures
        pin_code(a, b) == pin_code(b, a),
{
    if lex_le(a, b) && lex_le(b, a) {
        lemma_lex_le_antisymmetric(a, b);
    }
    crate::bytes::lemma_lex_le_total(a, b);
    assert(pin_message(a, b) == pin_message(b, a));
}

/// Tracks the two-sided confirmation needed to complete pairing.
#[derive(Clone, Copy, Debug, PartialEq, Eq, Structural)]
pub struct PairingState {
    pub local_confirmed: bool,
    pub remote_confirmed: bool,
}

impl PairingState {
    /// Neither side has confirmed yet.
    pub fn new() -> (s: Self)
        ensures
            !s.local_confirmed,
            !s.remote_confirmed,
    {
        PairingState { local_confirmed: false, remote_confirmed: false }
    }

    pub fn confirm_local(&mut self)
        ensures
            final(self).local_confirmed,
            final(self).remote_confirmed == old(self).remote_confirmed,
    {
        self.local_confirmed = true;
    }

    pub fn confirm_remote(&mut self)
        ensures
            final(self).remote_confirmed,
            final(self).local_confirmed == old(self).local_confirmed,
    {
        self.remote_confirmed = true;
    }

    /// True once both sides have confirmed the codes match.
    pub fn is_complete(&self) -> (r: bool)
        ensures
            r == (self.local_confirmed && self.remote_confirmed),
    {
        self.local_confirmed && self.remote_confirmed
    }
}

impl Default for PairingState {
    /// Neither side has confirmed yet.
    fn default() -> (s: Self)
        ensures
            !s.local_confirmed,
            !s.remote_confirmed,
    {
        PairingState::new()
    }
}

} // verus!
