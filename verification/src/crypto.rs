//! The cryptographic primitives ScreenLink uses from its outside crates:
//! SHA-256 (`sha2`), lowercase hex (`hex`) and ChaCha20-Poly1305
//! (`chacha20poly1305`). Each is a small trusted wrapper whose contract states
//! what the crate documents; everything built on them is verified.

use vstd::prelude::*;
use chacha20poly1305::aead::{Aead, KeyInit, Payload};
use chacha20poly1305::ChaCha20Poly1305;
use sha2::{Digest, Sha256};

verus! {

/// The SHA-256 digest of `data`.
pub uninterp spec fn sha256(data: Seq<u8>) -> Seq<u8>;

/// `sha2::Sha256::digest`: the 32-byte SHA-256 digest of `data`. The contract
/// names the digest and claims only that it is a function of `data`.
#[verifier::external_body]
pub(crate) fn sha256_digest(data: &[u8]) -> (r: [u8; 32])
    ensures
        r@ == sha256(data@),
{
    Sha256::digest(data).into()
}

/// The lowercase hexadecimal character of a nibble.
pub open spec fn hex_digit(n: u8) -> char {
    if n < 10 {
        (0x30 + n) as char
    } else {
        (0x61 + n - 10) as char
    }
}

/// Lowercase hex of a byte string: two characters per byte, high nibble first.
pub open spec fn hex_lower(data: Seq<u8>) -> Seq<char>
    decreases data.len(),
{
    if data.len() == 0 {
        seq![]
    } else {
        seq![hex_digit(data[0] / 16), hex_digit(data[0] % 16)] + hex_lower(data.drop_first())
    }
}

pub proof fn lemma_hex_lower_len(data: Seq<u8>)
    ensures
        hex_lower(data).len() == 2 * data.len(),
    decreases data.len(),
{
    if data.len() > 0 {
        lemma_hex_lower_len(data.drop_first());
    }
}

/// `hex::encode`: the lowercase hexadecimal form of `data`, two characters per
/// byte, high nibble first (the crate encodes with `b"0123456789abcdef"`).
#[verifier::external_body]
pub(crate) fn hex_encode(data: &[u8]) -> (s: String)
    ensures
        s@ == hex_lower(data@),
{
    hex::encode(data)
}

/// The ChaCha20-Poly1305 sealing of `msg` under `key`, `nonce` and associated
/// data `aad`: the ciphertext followed by the 16-byte tag.
pub uninterp spec fn chacha20poly1305_seal(
    key: Seq<u8>,
    nonce: Seq<u8>,
    aad: Seq<u8>,
    msg: Seq<u8>,
) -> Seq<u8>;

/// The ChaCha20-Poly1305 opening of `ct`: the plaintext when the tag verifies,
/// `None` otherwise.
pub uninterp spec fn chacha20poly1305_open(
    key: Seq<u8>,
    nonce: Seq<u8>,
    aad: Seq<u8>,
    ct: Seq<u8>,
) -> Option<Seq<u8>>;

/// The largest message the cipher seals: `chacha20poly1305` refuses a buffer of
/// `u32::MAX` 64-byte blocks or more.
pub open spec fn aead_max_msg() -> nat {
    64 * 0xffff_ffff
}

#[verifier::external_type_specification]
#[verifier::external_body]
pub struct ExAeadError(chacha20poly1305::aead::Error);

/// `ChaCha20Poly1305::new(key).encrypt(nonce, Payload { msg, aad })`. The crate
/// fails only on a message of `aead_max_msg()` bytes or more; otherwise it
/// returns the ciphertext with a 16-byte postfix tag, which opens again to the
/// message under the same key, nonce and associated data (AEAD correctness).
/// What the ciphertext bytes are is named, not stated.
#[verifier::external_body]
pub(crate) fn chacha_encrypt(key: &[u8; 32], nonce: &[u8; 12], aad: &[u8], msg: &[u8]) -> (r:
    Result<Vec<u8>, chacha20poly1305::aead::Error>)
    ensures
        msg@.len() < aead_max_msg() ==> r is Ok,
        r matches Ok(ct) ==> ct@ == chacha20poly1305_seal(key@, nonce@, aad@, msg@),
        r matches Ok(ct) ==> ct@.len() == msg@.len() + 16,
        r matches Ok(ct) ==> chacha20poly1305_open(key@, nonce@, aad@, ct@) == Some(msg@),
{
    ChaCha20Poly1305::new(key.into()).encrypt(nonce.into(), Payload { msg, aad })
}

/// `ChaCha20Poly1305::new(key).decrypt(nonce, Payload { msg: ct, aad })`: the
/// plaintext exactly when the tag verifies. Which ciphertexts verify (and so
/// that tampering is caught) is named, not stated.
#[verifier::external_body]
pub(crate) fn chacha_decrypt(key: &[u8; 32], nonce: &[u8; 12], aad: &[u8], ct: &[u8]) -> (r:
    Result<Vec<u8>, chacha20poly1305::aead::Error>)
    ensures
        r is Ok <==> chacha20poly1305_open(key@, nonce@, aad@, ct@) is Some,
        r matches Ok(pt) ==> chacha20poly1305_open(key@, nonce@, aad@, ct@) == Some(pt@),
{
    ChaCha20Poly1305::new(key.into()).decrypt(nonce.into(), Payload { msg: ct, aad })
}

} // verus!
