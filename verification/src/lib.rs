//! ScreenLink: a zero-config software KVM for the local network.
//!
//! This crate holds the verified core of ScreenLink: the wire protocol types,
//! numeric-comparison pairing, the anti-replay window and AEAD framing of the
//! realtime channel, the trust store, edge-crossing hysteresis, the key maps,
//! video packetization and the session state machine. The I/O around it (TLS,
//! sockets, OS input hooks, the clipboard) drives these pieces from `app/`.

pub mod bytes;
pub mod clipboard;
pub mod config;
pub mod crypto;
pub mod discovery;
pub mod edge;
pub mod enigo_map;
pub mod error;
pub mod framing;
pub mod hostinput;
pub mod hotkey;
pub mod input;
pub mod keymap_win;
pub mod loopback;
pub mod pairing;
pub mod protocol;
pub mod rdev_map;
pub mod realtime;
pub mod session;
pub mod replay;
pub mod security;
pub mod trust;
pub mod video;
pub mod winhooks;

use vstd::prelude::*;

verus! {

/// Default TCP port for the TLS control channel.
pub const DEFAULT_CONTROL_PORT: u16 = 47820;

/// Default UDP port for the encrypted realtime channel (input events).
pub const DEFAULT_REALTIME_PORT: u16 = 47821;

/// Default UDP port for the encrypted video channel (mirror mode).
pub const DEFAULT_VIDEO_PORT: u16 = 47822;

/// The DNS-SD service type ScreenLink advertises and browses for.
pub const MDNS_SERVICE_TYPE: &'static str = "_screenlink._tcp.local.";

} // verus!
