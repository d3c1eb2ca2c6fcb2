//! Software video codec for screen mirroring: one JPEG per frame.
//!
//! Every frame is independent, so a lost packet drops a frame instead of
//! corrupting a stream. The pixel work around the codec (BGRA with stride to
//! packed RGB, RGBA to BGRA) is verified here; the JPEG coding itself is done by
//! the `image` crate behind two trusted wrappers.

use vstd::prelude::*;
use vstd::arithmetic::div_mod::lemma_fundamental_div_mod_converse;
use vstd::arithmetic::mul::{lemma_mul_inequality, lemma_mul_is_distributive_add_other_way};
use image::codecs::jpeg::JpegEncoder as ImgJpegEncoder;
use image::{ExtendedColorType, ImageError, ImageFormat};
use crate::video::pipeline::{EncodedFrame, Frame, PipelineError, VideoDecoder, VideoEncoder};

verus! {

#[verifier::external_type_specification]
#[verifier::external_body]
pub struct ExImageError(ImageError);

/// The JPEG bytes that the `image` crate's baseline encoder produces for a
/// packed RGB8 image at the given quality.
pub uninterp spec fn jpeg_encode(rgb: Seq<u8>, width: u32, height: u32, quality: u8) -> Seq<u8>;

/// What the `image` crate decodes a JPEG byte string to, converted to RGBA8:
/// width, height and the pixel bytes; `None` when it refuses the data.
pub uninterp spec fn jpeg_decode(data: Seq<u8>) -> Option<(u32, u32, Seq<u8>)>;

/// The sizes a JPEG frame header can express.
pub open spec fn jpeg_dims_ok(width: u32, height: u32) -> bool {
    1 <= width <= 65535 && 1 <= height <= 65535
}

/// `image::codecs::jpeg::JpegEncoder::new_with_quality(&mut vec, quality)
/// .encode(rgb, width, height, ExtendedColorType::Rgb8)`. The crate panics
/// unless the buffer holds exactly `width * height * 3` bytes, refuses sizes
/// outside `1..=65535`, and otherwise only writes into the vector, which does
/// not fail. The bytes written are named, not stated.
#[verifier::external_body]
fn jpeg_encode_rgb(rgb: &[u8], width: u32, height: u32, quality: u8) -> (r: Result<
    Vec<u8>,
    ImageError,
>)
    requires
        rgb@.len() == width * height * 3,
    ensures
        r is Ok <==> jpeg_dims_ok(width, height),
        r matches Ok(d) ==> d@ == jpeg_encode(rgb@, width, height, quality),
{
    let mut data = Vec::new();
    ImgJpegEncoder::new_with_quality(&mut data, quality).encode(
        rgb,
        width,
        height,
        ExtendedColorType::Rgb8,
    )?;
    Ok(data)
}

/// `image::load_from_memory_with_format(data, ImageFormat::Jpeg)` followed by
/// `to_rgba8()`, `dimensions()` and `into_raw()`. The outcome is named; the
/// crate's JPEG decoder reads the size as 16-bit header fields, so both
/// dimensions are at most 65535, and the RGBA8 buffer holds exactly four bytes
/// per pixel.
#[verifier::external_body]
fn jpeg_decode_rgba(data: &[u8]) -> (r: Result<(u32, u32, Vec<u8>), ImageError>)
    ensures
        r is Ok <==> jpeg_decode(data@) is Some,
        r matches Ok((w, h, px)) ==> {
            &&& jpeg_decode(data@) == Some((w, h, px@))
            &&& px@.len() == w * h * 4
            &&& w <= 65535
            &&& h <= 65535
        },
{
    let img = image::load_from_memory_with_format(data, ImageFormat::Jpeg)?.to_rgba8();
    let (w, h) = img.dimensions();
    Ok((w, h, img.into_raw()))
}

/// The message of an `image` error (its `Display`). Nothing is stated of it.
#[verifier::external_body]
fn image_error_text(e: &ImageError) -> String {
    e.to_string()
}

/// The frame's buffer holds `height` rows of `stride` bytes, and a row of
/// `width` BGRA pixels fits in the stride.
pub open spec fn frame_fits(f: &Frame) -> bool {
    &&& f.stride as int >= f.width as int * 4
    &&& f.bgra@.len() >= f.stride as int * f.height as int
}

/// Byte `i` of the packed RGB image of `f`: channel `i % 3` (red, green, blue)
/// of pixel `i / 3` in row-major order, read from its BGRA bytes.
pub open spec fn rgb_byte(f: &Frame, i: int) -> u8 {
    let p = i / 3;
    let x = p % f.width as int;
    let y = p / f.width as int;
    f.bgra@[y * f.stride + x * 4 + 2 - i % 3]
}

/// The tightly packed RGB8 image of a BGRA frame (padding dropped).
pub open spec fn packed_rgb(f: &Frame) -> Seq<u8> {
    Seq::new((f.width * f.height * 3) as nat, |i: int| rgb_byte(f, i))
}

proof fn lemma_rgb_index(w: u32, x: u32, y: u32, c: int)
    requires
        x < w,
        0 <= c < 3,
    ensures
        ((y * w + x) * 3 + c) / 3 == y * w + x,
        ((y * w + x) * 3 + c) % 3 == c,
        (y * w + x) / (w as int) == y,
        (y * w + x) % (w as int) == x,
{
    let p = y * w + x;
    lemma_fundamental_div_mod_converse(p * 3 + c, 3, p, c);
    lemma_fundamental_div_mod_converse(p, w as int, y as int, x as int);
}

/// Pack a BGRA frame (with stride) into tightly packed RGB8.
pub fn bgra_to_rgb(frame: &Frame) -> (rgb: Vec<u8>)
    requires
        frame_fits(frame),
    ensures
        rgb@ == packed_rgb(frame),
{
    let w = frame.width;
    let h = frame.height;
    let stride = frame.stride as usize;
    let n = frame.bgra.len();
    let mut rgb: Vec<u8> = Vec::new();
    let mut y: u32 = 0;
    while y < h
        invariant
            frame_fits(frame),
            w == frame.width,
            h == frame.height,
            stride == frame.stride,
            n == frame.bgra@.len(),
            y <= h,
            rgb@.len() == y * w * 3,
            forall|i: int| 0 <= i < rgb@.len() ==> rgb@[i] == rgb_byte(frame, i),
        decreases h - y,
    {
        proof {
            lemma_mul_inequality(y as int + 1, h as int, stride as int);
            lemma_mul_is_distributive_add_other_way(stride as int, y as int, 1);
            assert((y as int) * (stride as int) + stride <= frame.bgra@.len());
        }
        let row = (y as usize) * stride;
        let mut x: u32 = 0;
        while x < w
            invariant
                frame_fits(frame),
                w == frame.width,
                h == frame.height,
                stride == frame.stride,
                n == frame.bgra@.len(),
                y < h,
                row == y * stride,
                row + stride <= frame.bgra@.len(),
                x <= w,
                rgb@.len() == (y * w + x) * 3,
                forall|i: int| 0 <= i < rgb@.len() ==> rgb@[i] == rgb_byte(frame, i),
            decreases w - x,
        {
            proof {
                lemma_rgb_index(w, x, y, 0);
                lemma_rgb_index(w, x, y, 1);
                lemma_rgb_index(w, x, y, 2);
            }
            let base = row + (x as usize) * 4;
            rgb.push(frame.bgra[base + 2]);
            rgb.push(frame.bgra[base + 1]);
            rgb.push(frame.bgra[base]);
            x = x + 1;
        }
        assert((y * w + w) * 3 == (y + 1) * w * 3) by (nonlinear_arith);
        y = y + 1;
    }
    assert(rgb@.len() == w * h * 3) by (nonlinear_arith)
        requires
            rgb@.len() == y * w * 3,
            y == h,
    ;
    assert(rgb@ =~= packed_rgb(frame));
    rgb
}

/// Byte `i` of `s` with bytes 0 and 2 of every whole 4-byte pixel exchanged.
pub open spec fn red_blue_byte(s: Seq<u8>, i: int) -> u8 {
    if i < s.len() - s.len() % 4 {
        if i % 4 == 0 {
            s[i + 2]
        } else if i % 4 == 2 {
            s[i - 2]
        } else {
            s[i]
        }
    } else {
        s[i]
    }
}

/// `s` with the first and third byte of every whole 4-byte pixel exchanged
/// (BGRA <-> RGBA); a trailing partial pixel is left as it is.
pub open spec fn red_blue_swapped(s: Seq<u8>) -> Seq<u8> {
    Seq::new(s.len(), |i: int| red_blue_byte(s, i))
}

/// Exchange the red and blue bytes of every whole 4-byte pixel, in place.
pub fn swap_red_blue(px: &mut Vec<u8>)
    ensures
        final(px)@ == red_blue_swapped(old(px)@),
{
    let ghost orig = px@;
    let n = px.len();
    let whole = n - n % 4;
    let mut i: usize = 0;
    while i < whole
        invariant
            orig == old(px)@,
            px@.len() == n,
            n == orig.len(),
            whole == n - n % 4,
            i % 4 == 0,
            i <= whole,
            forall|j: int| 0 <= j < i ==> px@[j] == red_blue_byte(orig, j),
            forall|j: int| i <= j < n ==> px@[j] == orig[j],
        decreases whole - i,
    {
        assert(i + 4 <= whole);
        let b = px[i];
        let r = px[i + 2];
        px.set(i, r);
        px.set(i + 2, b);
        i = i + 4;
    }
    assert(px@ =~= red_blue_swapped(orig));
}

/// Swapping red and blue twice gives the bytes back: BGRA -> RGBA -> BGRA.
pub proof fn law_red_blue_swap_is_an_involution(s: Seq<u8>)
    ensures
        red_blue_swapped(red_blue_swapped(s)) == s,
{
    let t = red_blue_swapped(s);
    assert(red_blue_swapped(t) =~= s);
}

/// JPEG encoder. `quality` is 1..=100 (higher = better image, more bytes).
pub struct JpegEncoder {
    pub quality: u8,
}

impl Default for JpegEncoder {
    /// Quality 70.
    fn default() -> (r: Self)
        ensures
            r.quality == 70,
    {
        JpegEncoder { quality: 70 }
    }
}

impl VideoEncoder for JpegEncoder {
    /// Refuses a frame whose buffer is too small for its size; otherwise packs
    /// it to RGB and JPEG-encodes it at `quality`, which succeeds exactly for the
    /// sizes JPEG can express. Every JPEG frame is a keyframe.
    fn encode(&mut self, frame: &Frame) -> (r: Result<EncodedFrame, PipelineError>)
        ensures
            final(self).quality == old(self).quality,
            !frame_fits(frame) ==> r == Err::<EncodedFrame, PipelineError>(
                PipelineError::BufferTooSmall,
            ),
            frame_fits(frame) && !jpeg_dims_ok(frame.width, frame.height) ==> r matches Err(
                PipelineError::Codec(_),
            ),
            frame_fits(frame) && jpeg_dims_ok(frame.width, frame.height) ==> (r matches Ok(e) && {
                &&& e.keyframe
                &&& e.data@ == jpeg_encode(
                    packed_rgb(frame),
                    frame.width,
                    frame.height,
                    old(self).quality,
                )
            }),
    {
        let w = frame.width as u64;
        let h = frame.height as u64;
        let stride = frame.stride as u64;
        assert(stride * h <= 0xffff_ffff * 0xffff_ffff) by (nonlinear_arith)
            requires
                stride <= 0xffff_ffff,
                h <= 0xffff_ffff,
        ;
        if !((frame.bgra.len() as u64) >= stride * h && stride >= w * 4) {
            return Err(PipelineError::BufferTooSmall);
        }
        let rgb = bgra_to_rgb(frame);
        match jpeg_encode_rgb(rgb.as_slice(), frame.width, frame.height, self.quality) {
            Ok(data) => Ok(EncodedFrame { keyframe: true, data }),
            Err(e) => Err(PipelineError::Codec(image_error_text(&e))),
        }
    }

    /// Nothing to do: every JPEG frame is already a keyframe.
    fn request_keyframe(&mut self) {
    }
}

/// A BGRA frame, tightly packed, from decoded RGBA pixels.
pub fn frame_from_rgba(width: u32, height: u32, rgba: Vec<u8>) -> (f: Frame)
    requires
        width * 4 <= u32::MAX,
    ensures
        f.width == width,
        f.height == height,
        f.stride == width * 4,
        f.bgra@ == red_blue_swapped(rgba@),
{
    let mut px = rgba;
    swap_red_blue(&mut px);
    Frame { width, height, stride: width * 4, bgra: px }
}

/// JPEG decoder, producing BGRA frames (the native capture/present format).
#[derive(Default)]
pub struct JpegDecoder;

impl VideoDecoder for JpegDecoder {
    /// The decoded image as a tightly packed BGRA frame, or the codec's error.
    fn decode(&mut self, encoded: &EncodedFrame) -> (r: Result<Option<Frame>, PipelineError>)
        ensures
            match jpeg_decode(encoded.data@) {
                Some((w, h, px)) => r matches Ok(Some(f)) && {
                    &&& f.width == w
                    &&& f.height == h
                    &&& f.stride == w * 4
                    &&& f.bgra@ == red_blue_swapped(px)
                    &&& f.bgra@.len() == w * h * 4
                },
                None => r matches Err(PipelineError::Codec(_)),
            },
    {
        match jpeg_decode_rgba(encoded.data.as_slice()) {
            Ok((w, h, px)) => Ok(Some(frame_from_rgba(w, h, px))),
            Err(e) => Err(PipelineError::Codec(image_error_text(&e))),
        }
    }
}

/// A frame ready for display: RGBA8, top-down, tightly packed.
pub struct RgbaFrame {
    pub width: u32,
    pub height: u32,
    pub rgba: Vec<u8>,
}

impl RgbaFrame {
    /// The display form of a decoded (tightly packed) BGRA frame.
    pub fn from_bgra(frame: Frame) -> (r: Self)
        ensures
            r.width == frame.width,
            r.height == frame.height,
            r.rgba@ == red_blue_swapped(frame.bgra@),
    {
        let mut rgba = frame.bgra;
        swap_red_blue(&mut rgba);
        RgbaFrame { width: frame.width, height: frame.height, rgba }
    }
}

} // verus!
