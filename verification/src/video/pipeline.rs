//! The seams of the screen-sharing pipeline.
//!
//! **Host:** `VirtualDisplay` (add a monitor) -> `FrameSource` (capture it) ->
//! `VideoEncoder` -> [`crate::video::transport`] (chunk + seal + UDP).
//!
//! **Client:** UDP -> [`crate::video::transport`] (reassemble) -> `VideoDecoder`
//! -> `Presenter`.
//!
//! A built-in [`TestPatternSource`] lets the encode/transport/decode path run
//! with no capture device.

use vstd::prelude::*;
use vstd::arithmetic::div_mod::{lemma_add_mod_noop, lemma_fundamental_div_mod_converse};
use crate::video::DisplayMode;

verus! {

/// A raw frame in BGRA8. `stride` is bytes per row (may exceed `width * 4`).
#[derive(Clone)]
pub struct Frame {
    pub width: u32,
    pub height: u32,
    pub stride: u32,
    pub bgra: Vec<u8>,
}

/// A compressed frame ready for [`crate::video::transport::split_frame`].
#[derive(Clone, Debug)]
pub struct EncodedFrame {
    pub keyframe: bool,
    pub data: Vec<u8>,
}

/// Why a pipeline stage failed.
#[derive(Clone, Debug, PartialEq, Eq)]
pub enum PipelineError {
    /// The frame buffer is smaller than `stride * height`, or the stride is
    /// narrower than a row of pixels.
    BufferTooSmall,
    /// The image codec refused the data; its message.
    Codec(String),
    /// The stage has no implementation in this build; what is missing.
    NotImplemented(&'static str),
    /// A platform backend failed; its message.
    Platform(String),
}

/// Creates and removes the virtual monitor on the host.
pub trait VirtualDisplay {
    fn enable(&mut self, mode: DisplayMode) -> Result<(), PipelineError>;

    fn disable(&mut self) -> Result<(), PipelineError>;
}

/// Produces raw frames.
pub trait FrameSource {
    /// The next frame, or `None` if none is available yet (no change).
    fn next_frame(&mut self) -> Result<Option<Frame>, PipelineError>;
}

/// Compresses raw frames.
pub trait VideoEncoder {
    fn encode(&mut self, frame: &Frame) -> Result<EncodedFrame, PipelineError>;

    /// Ask for a keyframe on the next encode (e.g. after packet loss).
    fn request_keyframe(&mut self);
}

/// Decompresses frames.
pub trait VideoDecoder {
    fn decode(&mut self, encoded: &EncodedFrame) -> Result<Option<Frame>, PipelineError>;
}

/// Presents decoded frames.
pub trait Presenter {
    fn present(&mut self, frame: &Frame) -> Result<(), PipelineError>;
}

/// Channel `c` (0 = blue, 1 = green, 2 = red, 3 = alpha) of the test pattern's
/// pixel `(x, y)` at animation step `tick`.
pub open spec fn pattern_channel(x: u32, y: u32, tick: u32, c: int) -> u8 {
    if c == 0 {
        ((x + tick) % 256) as u8
    } else if c == 1 {
        ((y + tick) % 256) as u8
    } else if c == 2 {
        ((x ^ y) % 256) as u8
    } else {
        255
    }
}

/// Byte `i` of a tightly packed (`stride == width * 4`) test-pattern frame.
pub open spec fn pattern_byte(width: u32, tick: u32, i: int) -> u8 {
    let p = i / 4;
    pattern_channel((p % width as int) as u32, (p / width as int) as u32, tick, i % 4)
}

/// An animated test pattern standing in for a capture source, so the
/// encode/transport/decode path runs with no driver and no second machine.
pub struct TestPatternSource {
    width: u32,
    height: u32,
    tick: u32,
}

impl TestPatternSource {
    /// A frame of these dimensions, and its rows, fit the `u32` sizes in use.
    pub open spec fn dims_fit(width: u32, height: u32) -> bool {
        &&& width * 4 <= u32::MAX
        &&& width * height * 4 <= u32::MAX
    }

    #[verifier::type_invariant]
    closed spec fn inv(self) -> bool {
        Self::dims_fit(self.width, self.height)
    }

    pub closed spec fn width_spec(&self) -> u32 {
        self.width
    }

    pub closed spec fn height_spec(&self) -> u32 {
        self.height
    }

    /// The animation step of the next frame.
    pub closed spec fn tick_spec(&self) -> u32 {
        self.tick
    }

    pub fn new(width: u32, height: u32) -> (r: Self)
        requires
            Self::dims_fit(width, height),
        ensures
            r.width_spec() == width,
            r.height_spec() == height,
            r.tick_spec() == 0,
    {
        TestPatternSource { width, height, tick: 0 }
    }
}

/// The bytes of pixel `p = y * w + x` start at `4 * p`, and byte `4 * p + c`
/// reads back as channel `c` of `(x, y)`.
proof fn lemma_pattern_index(w: u32, x: u32, y: u32, c: int)
    requires
        x < w,
        0 <= c < 4,
    ensures
        ((y * w + x) * 4 + c) / 4 == y * w + x,
        ((y * w + x) * 4 + c) % 4 == c,
        (y * w + x) / (w as int) == y,
        (y * w + x) % (w as int) == x,
{
    let p = y * w + x;
    lemma_fundamental_div_mod_converse(p * 4 + c, 4, p, c);
    lemma_fundamental_div_mod_converse(p, w as int, y as int, x as int);
}

impl FrameSource for TestPatternSource {
    /// Always a frame: blue = `x + tick`, green = `y + tick`, red = `x ^ y`
    /// (each mod 256), alpha opaque; the tick then advances by 4 (wrapping).
    fn next_frame(&mut self) -> (r: Result<Option<Frame>, PipelineError>)
        ensures
            final(self).width_spec() == old(self).width_spec(),
            final(self).height_spec() == old(self).height_spec(),
            final(self).tick_spec() == old(self).tick_spec().wrapping_add(4),
            r matches Ok(Some(f)) && {
                &&& f.width == old(self).width_spec()
                &&& f.height == old(self).height_spec()
                &&& f.stride == f.width * 4
                &&& f.bgra@.len() == f.width * f.height * 4
                &&& forall|i: int|
                    0 <= i < f.bgra@.len() ==> f.bgra@[i] == pattern_byte(
                        f.width,
                        old(self).tick_spec(),
                        i,
                    )
            },
    {
        proof {
            use_type_invariant(&*self);
        }
        let w = self.width;
        let h = self.height;
        let t = self.tick;
        let stride = w * 4;
        let mut bgra: Vec<u8> = Vec::new();
        let mut y: u32 = 0;
        while y < h
            invariant
                Self::dims_fit(w, h),
                y <= h,
                bgra@.len() == y * w * 4,
                forall|i: int| 0 <= i < bgra@.len() ==> bgra@[i] == pattern_byte(w, t, i),
            decreases h - y,
        {
            let mut x: u32 = 0;
            while x < w
                invariant
                    Self::dims_fit(w, h),
                    y < h,
                    x <= w,
                    bgra@.len() == (y * w + x) * 4,
                    forall|i: int| 0 <= i < bgra@.len() ==> bgra@[i] == pattern_byte(w, t, i),
                decreases w - x,
            {
                proof {
                    lemma_pattern_index(w, x, y, 0);
                    lemma_pattern_index(w, x, y, 1);
                    lemma_pattern_index(w, x, y, 2);
                    lemma_pattern_index(w, x, y, 3);
                    lemma_add_mod_noop(x as int, t as int, 256);
                    lemma_add_mod_noop(y as int, t as int, 256);
                }
                bgra.push((((x % 256) + (t % 256)) % 256) as u8);
                bgra.push((((y % 256) + (t % 256)) % 256) as u8);
                bgra.push(((x ^ y) % 256) as u8);
                bgra.push(255);
                x = x + 1;
            }
            assert((y * w + w) * 4 == (y + 1) * w * 4) by (nonlinear_arith);
            y = y + 1;
        }
        assert(bgra@.len() == w * h * 4) by (nonlinear_arith)
            requires
                bgra@.len() == y * w * 4,
                y == h,
        ;
        self.tick = t.wrapping_add(4);
        Ok(Some(Frame { width: w, height: h, stride, bgra }))
    }
}

/// Successive test-pattern frames differ: the first pixel's blue channel moves
/// with the tick, which advances by 4 each frame.
pub proof fn law_test_pattern_animates(width: u32, tick: u32)
    requires
        width >= 1,
    ensures
        pattern_byte(width, tick, 0) != pattern_byte(width, tick.wrapping_add(4), 0),
{
    lemma_fundamental_div_mod_converse(0, width as int, 0, 0);
    let t2 = tick.wrapping_add(4);
    if tick + 4 > u32::MAX {
        assert(t2 == tick + 4 - 0x1_0000_0000);
    } else {
        assert(t2 == tick + 4);
    }
}

/// Placeholder encoder for the hardware encoder that is not implemented yet.
pub struct UnimplementedEncoder;

impl VideoEncoder for UnimplementedEncoder {
    /// Always refuses.
    fn encode(&mut self, frame: &Frame) -> (r: Result<EncodedFrame, PipelineError>)
        ensures
            r matches Err(PipelineError::NotImplemented(_)),
    {
        Err(PipelineError::NotImplemented("Media Foundation hardware encoder"))
    }

    fn request_keyframe(&mut self) {
    }
}

/// Placeholder decoder for the hardware decoder that is not implemented yet.
pub struct UnimplementedDecoder;

impl VideoDecoder for UnimplementedDecoder {
    /// Always refuses.
    fn decode(&mut self, encoded: &EncodedFrame) -> (r: Result<Option<Frame>, PipelineError>)
        ensures
            r matches Err(PipelineError::NotImplemented(_)),
    {
        Err(PipelineError::NotImplemented("MF/DXVA decoder"))
    }
}

} // verus!
