//! The crate-wide error type.

use vstd::prelude::*;

verus! {

/// Why the realtime channel refused to seal or open a packet.
#[derive(Clone, Copy, Debug, PartialEq, Eq, Structural)]
pub enum CryptoError {
    /// The cipher refused to seal the payload.
    Seal,
    /// The packet is shorter than its sequence-number header.
    ShortPacket,
    /// The authentication tag did not verify (tampered, wrong key or epoch).
    Auth,
    /// The sequence number was seen before or is older than the replay window.
    Replay { seq: u64 },
}

/// Errors of the ScreenLink core. Failures of outside crates (I/O, TLS,
/// serialization) arrive here as their rendered messages.
#[derive(Clone, Debug, PartialEq, Eq)]
pub enum CoreError {
    Io(String),
    Serde(String),
    Tls(String),
    Rcgen(String),
    Crypto(CryptoError),
    Auth(String),
    Protocol(String),
    Pairing(String),
    /// A frame of `.0` bytes exceeded the limit `.1`.
    FrameTooLarge(usize, usize),
    Config(String),
    Other(String),
}

pub type Result<T> = core::result::Result<T, CoreError>;

} // verus!
