//! Length-prefixed framing for the control channel.
//!
//! Each frame is a 4-byte big-endian length followed by that many bytes of a
//! serialized message. A maximum guards against a peer announcing an absurd
//! length.

use vstd::prelude::*;
use crate::bytes::{append_bytes, be32, from_be32, lemma_be32_roundtrip, u32_from_be, u32_to_be};
use crate::error::CoreError;

verus! {

/// Hard cap on a single control frame (8 MiB). Control messages are tiny; this
/// only ever matters as a denial-of-service guard.
pub const MAX_FRAME_LEN: usize = 8 * 1024 * 1024;

/// The wire form of a frame carrying `body`.
pub open spec fn frame_bytes(body: Seq<u8>) -> Seq<u8> {
    be32(body.len() as u32) + body
}

/// What `decode_frame` makes of the bytes received so far: `Ok(None)` while the
/// header or body is incomplete, the body and the bytes consumed once a whole
/// frame is there, or the announced length when it exceeds the limit.
pub open spec fn decode_outcome(buf: Seq<u8>) -> Result<Option<(Seq<u8>, nat)>, nat> {
    if buf.len() < 4 {
        Ok(None)
    } else {
        let len = from_be32(buf.subrange(0, 4));
        if len > MAX_FRAME_LEN {
            Err(len as nat)
        } else if buf.len() < 4 + len {
            Ok(None)
        } else {
            Ok(Some((buf.subrange(4, 4 + len), (4 + len) as nat)))
        }
    }
}

/// Frame `body` for the wire, refusing bodies over `MAX_FRAME_LEN`.
pub fn encode_frame(body: &[u8]) -> (r: Result<Vec<u8>, CoreError>)
    ensures
        body@.len() > MAX_FRAME_LEN ==> r == Err::<Vec<u8>, CoreError>(
            CoreError::FrameTooLarge(body@.len() as usize, MAX_FRAME_LEN),
        ),
        body@.len() <= MAX_FRAME_LEN ==> (r matches Ok(f) && f@ == frame_bytes(body@)),
{
    if body.len() > MAX_FRAME_LEN {
        return Err(CoreError::FrameTooLarge(body.len(), MAX_FRAME_LEN));
    }
    let hdr = u32_to_be(body.len() as u32);
    let mut out: Vec<u8> = Vec::new();
    append_bytes(&mut out, &hdr);
    append_bytes(&mut out, body);
    Ok(out)
}

/// The body length a frame header announces, refusing lengths over
/// `MAX_FRAME_LEN`.
pub fn frame_len(header: [u8; 4]) -> (r: Result<usize, CoreError>)
    ensures
        from_be32(header@) > MAX_FRAME_LEN ==> r == Err::<usize, CoreError>(
            CoreError::FrameTooLarge(from_be32(header@) as usize, MAX_FRAME_LEN),
        ),
        from_be32(header@) <= MAX_FRAME_LEN ==> r == Ok::<usize, CoreError>(
            from_be32(header@) as usize,
        ),
{
    assert(header@ =~= seq![header[0], header[1], header[2], header[3]]);
    let len = u32_from_be(header[0], header[1], header[2], header[3]);
    if len as usize > MAX_FRAME_LEN {
        return Err(CoreError::FrameTooLarge(len as usize, MAX_FRAME_LEN));
    }
    Ok(len as usize)
}

/// Take one frame off the front of the bytes received so far.
pub fn decode_frame(buf: &[u8]) -> (r: Result<Option<(Vec<u8>, usize)>, CoreError>)
    ensures
        match decode_outcome(buf@) {
            Ok(None) => r matches Ok(None),
            Ok(Some((body, used))) => (r matches Ok(Some((b, u))) && b@ == body && u == used),
            Err(len) => r == Err::<Option<(Vec<u8>, usize)>, CoreError>(
                CoreError::FrameTooLarge(len as usize, MAX_FRAME_LEN),
            ),
        },
{
    if buf.len() < 4 {
        return Ok(None);
    }
    assert(buf@.subrange(0, 4) =~= seq![buf[0], buf[1], buf[2], buf[3]]);
    let len = match frame_len([buf[0], buf[1], buf[2], buf[3]]) {
        Ok(n) => n,
        Err(e) => return Err(e),
    };
    if buf.len() - 4 < len {
        return Ok(None);
    }
    let mut body: Vec<u8> = Vec::new();
    append_bytes(&mut body, &buf[4..4 + len]);
    Ok(Some((body, 4 + len)))
}

/// A framed body decodes back to itself, whatever bytes follow it; so frames
/// written one after another are read back one by one, in order.
pub proof fn law_frame_roundtrip(body: Seq<u8>, rest: Seq<u8>)
    requires
        body.len() <= MAX_FRAME_LEN,
    ensures
        decode_outcome(frame_bytes(body) + rest) == Ok::<Option<(Seq<u8>, nat)>, nat>(
            Some((body, (4 + body.len()) as nat)),
        ),
        (frame_bytes(body) + rest).skip(4 + body.len() as int) == rest,
{
    let buf = frame_bytes(body) + rest;
    lemma_be32_roundtrip(body.len() as u32);
    assert(buf.subrange(0, 4) =~= be32(body.len() as u32));
    assert(buf.subrange(4, 4 + body.len() as int) =~= body);
    assert(buf.skip(4 + body.len() as int) =~= rest);
}

/// A header announcing more than `MAX_FRAME_LEN` bytes is refused before any
/// body is read.
pub proof fn law_oversized_header_refused(buf: Seq<u8>)
    requires
        buf.len() >= 4,
        from_be32(buf.subrange(0, 4)) > MAX_FRAME_LEN,
    ensures
        decode_outcome(buf) is Err,
{
}

} // verus!
