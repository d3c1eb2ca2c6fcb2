//! Device identity and fingerprint pinning.
//!
//! ScreenLink does not use a CA/PKI. Every device generates a long-term
//! self-signed certificate at first run; its identity *is* the SHA-256
//! fingerprint of that certificate. Pairing records the peer's fingerprint;
//! reconnection requires the peer to present a certificate with exactly that
//! fingerprint (the TLS handshake, driven from `app/`, proves possession of the
//! matching private key).

use vstd::prelude::*;
use std::sync::Arc;
use crate::crypto::{hex_encode, hex_lower, lemma_hex_lower_len, sha256, sha256_digest};
use crate::error::CoreError;
use crate::protocol::DeviceId;
use crate::trust::TrustStore;

verus! {

/// The subject alternative name of every ScreenLink certificate, and the SNI
/// name used when connecting (the verifier pins by fingerprint, not hostname).
pub const SNI_NAME: &'static str = "screenlink.local";

/// The fingerprint of a certificate: lowercase hex of the SHA-256 of its DER.
pub open spec fn cert_fingerprint(cert: Seq<u8>) -> Seq<char> {
    hex_lower(sha256(cert))
}

/// A fingerprint as it is shown and stored: 64 lowercase hex digits.
pub open spec fn is_fingerprint_text(s: Seq<char>) -> bool {
    &&& s.len() == 64
    &&& forall|i: int| 0 <= i < 64 ==> is_lower_hex_digit(#[trigger] s[i])
}

/// Lowercase hex SHA-256 of a certificate's DER bytes: always 64 hex digits.
pub fn fingerprint_hex(cert: &[u8]) -> (r: String)
    ensures
        r@ == cert_fingerprint(cert@),
        is_fingerprint_text(r@),
{
    let digest = sha256_digest(cert);
    proof {
        lemma_hex_lower_len(digest@);
        lemma_hex_lower_digits(digest@);
    }
    hex_encode(&digest)
}

/// Whether `c` is a lowercase hexadecimal digit.
pub open spec fn is_lower_hex_digit(c: char) -> bool {
    ('0' <= c && c <= '9') || ('a' <= c && c <= 'f')
}

proof fn lemma_hex_lower_digits(data: Seq<u8>)
    ensures
        forall|i: int| 0 <= i < hex_lower(data).len() ==> is_lower_hex_digit(
            #[trigger] hex_lower(data)[i],
        ),
    decreases data.len(),
{
    lemma_hex_lower_len(data);
    if data.len() > 0 {
        lemma_hex_lower_digits(data.drop_first());
        lemma_hex_lower_len(data.drop_first());
        let head = seq![
            crate::crypto::hex_digit(data[0] / 16),
            crate::crypto::hex_digit(data[0] % 16),
        ];
        assert forall|i: int| 0 <= i < hex_lower(data).len() implies is_lower_hex_digit(
            #[trigger] hex_lower(data)[i],
        ) by {
            if i >= 2 {
                assert(hex_lower(data)[i] == hex_lower(data.drop_first())[i - 2]);
            }
        }
    }
}

#[verifier::external_type_specification]
#[verifier::external_body]
pub struct ExRcgenError(rcgen::Error);

/// The DNS names listed in a DER certificate's subject-alternative-name
/// extension, in order.
pub uninterp spec fn certificate_dns_names(cert_der: Seq<u8>) -> Seq<Seq<char>>;

/// Text that `std`'s IP address parser cannot read as an address: no `:` (every
/// IPv6 form has one) and some character other than a digit or `.` (an IPv4
/// form has only those). rcgen lists such a name as a DNS name.
pub open spec fn not_ip_text(s: Seq<char>) -> bool {
    &&& !s.contains(':')
    &&& exists|i: int| 0 <= i < s.len() && !('0' <= #[trigger] s[i] <= '9') && s[i] != '.'
}

/// `rcgen::generate_simple_self_signed(vec![subject_alt_name])`: a fresh key
/// pair and a certificate for it, returned as the certificate's DER and the
/// key's PKCS#8 DER. The key is random, so nothing is stated of the bytes;
/// a name that is not an IP address is the certificate's only DNS name.
#[verifier::external_body]
fn rcgen_self_signed(subject_alt_name: &str) -> (r: Result<(Vec<u8>, Vec<u8>), rcgen::Error>)
    ensures
        not_ip_text(subject_alt_name@) ==> (r matches Ok((cert, _key)) ==> certificate_dns_names(
            cert@,
        ) == seq![subject_alt_name@]),
{
    let ck = rcgen::generate_simple_self_signed(vec![subject_alt_name.to_string()])?;
    Ok((ck.cert.der().to_vec(), ck.key_pair.serialize_der()))
}

/// The message of an `rcgen` error (its `Display`). Nothing is stated of it.
#[verifier::external_body]
fn rcgen_error_text(e: &rcgen::Error) -> String {
    e.to_string()
}

/// A device's long-term cryptographic identity: its self-signed certificate,
/// the PKCS#8 private key, and the certificate's fingerprint.
pub struct Identity {
    cert_der: Vec<u8>,
    key_der: Vec<u8>,
    fingerprint: String,
}

impl Identity {
    #[verifier::type_invariant]
    closed spec fn inv(self) -> bool {
        &&& self.fingerprint@ == cert_fingerprint(self.cert_der@)
        &&& is_fingerprint_text(self.fingerprint@)
    }

    pub closed spec fn cert_spec(&self) -> Seq<u8> {
        self.cert_der@
    }

    pub closed spec fn key_spec(&self) -> Seq<u8> {
        self.key_der@
    }

    /// The identity of a stored certificate and key; the fingerprint is
    /// computed from the certificate.
    pub fn from_der(cert_der: Vec<u8>, key_der: Vec<u8>) -> (r: Self)
        ensures
            r.cert_spec() == cert_der@,
            r.key_spec() == key_der@,
    {
        let fingerprint = fingerprint_hex(cert_der.as_slice());
        Identity { cert_der, key_der, fingerprint }
    }

    /// Generate a fresh self-signed identity for `SNI_NAME`: the certificate's
    /// only DNS name is `SNI_NAME`.
    pub fn generate() -> (r: Result<Self, CoreError>)
        ensures
            r matches Ok(id) ==> certificate_dns_names(id.cert_spec()) == seq![SNI_NAME@],
            r matches Err(e) ==> e is Rcgen,
    {
        proof {
            reveal_strlit("screenlink.local");
            assert(!('0' <= SNI_NAME@[0] <= '9') && SNI_NAME@[0] != '.');
            assert(!SNI_NAME@.contains(':')) by {
                if SNI_NAME@.contains(':') {
                    let i = choose|i: int| 0 <= i < SNI_NAME@.len() && SNI_NAME@[i] == ':';
                    assert(SNI_NAME@[i] != ':');
                }
            }
        }
        match rcgen_self_signed(SNI_NAME) {
            Ok((cert, key)) => Ok(Identity::from_der(cert, key)),
            Err(e) => Err(CoreError::Rcgen(rcgen_error_text(&e))),
        }
    }

    /// The device id: the certificate fingerprint.
    pub fn device_id(&self) -> (r: DeviceId)
        ensures
            r.0@ == cert_fingerprint(self.cert_spec()),
            is_fingerprint_text(r.0@),
    {
        proof {
            use_type_invariant(self);
        }
        DeviceId(self.fingerprint.clone())
    }

    /// The certificate fingerprint.
    pub fn fingerprint(&self) -> (r: &str)
        ensures
            r@ == cert_fingerprint(self.cert_spec()),
            is_fingerprint_text(r@),
    {
        proof {
            use_type_invariant(self);
        }
        self.fingerprint.as_str()
    }

    /// The certificate's DER bytes.
    pub fn cert_der(&self) -> (r: Vec<u8>)
        ensures
            r@ == self.cert_spec(),
    {
        self.cert_der.clone()
    }

    /// The private key's PKCS#8 DER bytes.
    pub fn key_der(&self) -> (r: Vec<u8>)
        ensures
            r@ == self.key_spec(),
    {
        self.key_der.clone()
    }
}

impl Clone for Identity {
    fn clone(&self) -> (r: Self)
        ensures
            r.cert_spec() == self.cert_spec(),
            r.key_spec() == self.key_spec(),
    {
        proof {
            use_type_invariant(self);
        }
        Identity {
            cert_der: self.cert_der.clone(),
            key_der: self.key_der.clone(),
            fingerprint: self.fingerprint.clone(),
        }
    }
}

/// What the certificate verifier should do with a peer certificate.
#[derive(Clone)]
pub enum VerifyMode {
    /// Pairing / trust-on-first-use: accept any self-signed peer and record its
    /// fingerprint. Safe only because the user then confirms the comparison PIN.
    PairTofu,
    /// Normal reconnect: accept only fingerprints already in the trust store.
    RequireTrusted(Arc<TrustStore>),
}

/// The verdict on a peer certificate: its fingerprint (recorded as the
/// observed peer) and whether the handshake may go on.
pub struct PeerCheck {
    pub fingerprint: String,
    pub accepted: bool,
}

/// Whether `mode` accepts a certificate with fingerprint `fp`.
pub open spec fn mode_accepts(mode: VerifyMode, fp: Seq<char>) -> bool {
    match mode {
        VerifyMode::PairTofu => true,
        VerifyMode::RequireTrusted(store) => store@.dom().contains(fp),
    }
}

/// Fingerprint-pinning policy: compute the peer certificate's fingerprint and
/// accept it in pairing mode, or in reconnect mode exactly when it is trusted.
pub fn check_peer(mode: &VerifyMode, end_entity: &[u8]) -> (r: PeerCheck)
    ensures
        r.fingerprint@ == cert_fingerprint(end_entity@),
        r.accepted == mode_accepts(*mode, cert_fingerprint(end_entity@)),
{
    let fingerprint = fingerprint_hex(end_entity);
    let accepted = match mode {
        VerifyMode::PairTofu => true,
        VerifyMode::RequireTrusted(store) => store.is_trusted(fingerprint.as_str()),
    };
    PeerCheck { fingerprint, accepted }
}

} // verus!
