//! Screen sharing: the pipeline seams, the software codec and packet transport,
//! and the entry points of Extend mode (a wireless second monitor), which this
//! build does not include.

pub mod codec;
pub mod pipeline;
pub mod transport;

use vstd::prelude::*;

verus! {

/// Why Extend mode could not start.
#[derive(Clone, Copy, Debug, PartialEq, Eq)]
pub enum VideoError {
    /// Extend mode is not built into this binary.
    NotBuilt,
    /// Extend mode is built in but the named stage is not implemented yet.
    NotImplemented(&'static str),
}

impl VideoError {
    /// The human-readable description of the error.
    pub fn message(&self) -> (r: String)
        ensures
            match *self {
                VideoError::NotBuilt => r@
                    == "Extend mode is not built into this binary (rebuild with --features extend)"@,
                VideoError::NotImplemented(what) => r@
                    == "Extend mode is not implemented yet (Phase 2): "@ + what@,
            },
    {
        match self {
            VideoError::NotBuilt => String::from_str(
                "Extend mode is not built into this binary (rebuild with --features extend)",
            ),
            VideoError::NotImplemented(what) => {
                let mut s = String::from_str("Extend mode is not implemented yet (Phase 2): ");
                s.append(what);
                s
            },
        }
    }
}

/// Whether this binary was compiled with Extend-mode support. This library is
/// built without the native capture/encode backends, so it never is.
pub fn extend_compiled_in() -> (r: bool)
    ensures
        !r,
{
    false
}

/// Parameters for a virtual display or stream.
#[derive(Clone, Copy, Debug, PartialEq, Eq, Structural)]
pub struct DisplayMode {
    pub width: u32,
    pub height: u32,
    pub refresh_hz: u32,
}

impl Default for DisplayMode {
    /// 1920x1080 at 60 Hz.
    fn default() -> (r: Self)
        ensures
            r == (DisplayMode { width: 1920, height: 1080, refresh_hz: 60 }),
    {
        DisplayMode { width: 1920, height: 1080, refresh_hz: 60 }
    }
}

/// Host: begin presenting an extended display to a connected client. Never a
/// silent success: without Extend support it reports `NotBuilt`.
pub fn start_extend_host(mode: DisplayMode) -> (r: Result<(), VideoError>)
    ensures
        r == Err::<(), VideoError>(VideoError::NotBuilt),
{
    if !extend_compiled_in() {
        return Err(VideoError::NotBuilt);
    }
    Err(VideoError::NotImplemented("virtual display + Desktop Duplication + Media Foundation encode"))
}

/// Client: begin receiving and presenting an extended display from a host.
/// Without Extend support it reports `NotBuilt`.
pub fn start_extend_client() -> (r: Result<(), VideoError>)
    ensures
        r == Err::<(), VideoError>(VideoError::NotBuilt),
{
    if !extend_compiled_in() {
        return Err(VideoError::NotBuilt);
    }
    Err(VideoError::NotImplemented("MF/DXVA decode + D3D11 present"))
}

} // verus!
