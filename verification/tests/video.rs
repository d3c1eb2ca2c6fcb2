use screenlink::video::codec::{
    bgra_to_rgb, frame_from_rgba, swap_red_blue, JpegDecoder, JpegEncoder, RgbaFrame,
};
use screenlink::video::pipeline::{
    EncodedFrame, Frame, FrameSource, PipelineError, TestPatternSource, UnimplementedDecoder,
    UnimplementedEncoder, VideoDecoder, VideoEncoder,
};
use screenlink::video::transport::{split_frame, Reassembler, DEFAULT_MAX_CHUNK};
use screenlink::video::{
    extend_compiled_in, start_extend_client, start_extend_host, DisplayMode, VideoError,
};

fn payload(n: usize) -> Vec<u8> {
    (0..n).map(|i| (i % 251) as u8).collect()
}

// ---- extend mode ----

#[test]
fn host_start_is_gated_or_unimplemented() {
    assert!(start_extend_host(DisplayMode::default()).is_err());
}

#[test]
fn extend_mode_is_not_built_in() {
    assert!(!extend_compiled_in());
    assert_eq!(start_extend_client(), Err(VideoError::NotBuilt));
    assert_eq!(
        DisplayMode::default(),
        DisplayMode { width: 1920, height: 1080, refresh_hz: 60 }
    );
    assert_eq!(
        VideoError::NotBuilt.message(),
        "Extend mode is not built into this binary (rebuild with --features extend)"
    );
    assert_eq!(
        VideoError::NotImplemented("x").message(),
        "Extend mode is not implemented yet (Phase 2): x"
    );
}

// ---- pipeline ----

#[test]
fn test_pattern_produces_correct_sized_bgra() {
    let mut src = TestPatternSource::new(64, 48);
    let f = src.next_frame().unwrap().unwrap();
    assert_eq!(f.width, 64);
    assert_eq!(f.height, 48);
    assert_eq!(f.bgra.len(), (64 * 48 * 4) as usize);
    assert!(f.bgra.iter().skip(3).step_by(4).all(|&a| a == 255));
}

#[test]
fn test_pattern_animates() {
    let mut src = TestPatternSource::new(8, 8);
    let a = src.next_frame().unwrap().unwrap();
    let b = src.next_frame().unwrap().unwrap();
    assert_ne!(a.bgra, b.bgra, "frames should change over time");
}

#[test]
fn test_pattern_pixel_values() {
    let mut src = TestPatternSource::new(4, 3);
    let _ = src.next_frame().unwrap().unwrap();
    let f = src.next_frame().unwrap().unwrap(); // tick 4
    assert_eq!(f.stride, 16);
    // Pixel (x=3, y=2): B = 3 + 4, G = 2 + 4, R = 3 ^ 2, A = 255.
    let i = (2 * 16 + 3 * 4) as usize;
    assert_eq!(&f.bgra[i..i + 4], &[7, 6, 1, 255]);
}

#[test]
fn placeholders_refuse() {
    let frame = Frame { width: 1, height: 1, stride: 4, bgra: vec![0; 4] };
    assert!(matches!(
        UnimplementedEncoder.encode(&frame),
        Err(PipelineError::NotImplemented(_))
    ));
    assert!(matches!(
        UnimplementedDecoder.decode(&EncodedFrame { keyframe: true, data: vec![] }),
        Err(PipelineError::NotImplemented(_))
    ));
}

// ---- codec ----

#[test]
fn encode_then_decode_preserves_dimensions() {
    let mut src = TestPatternSource::new(160, 120);
    let frame = src.next_frame().unwrap().unwrap();
    let mut enc = JpegEncoder::default();
    let encoded = enc.encode(&frame).unwrap();
    assert!(!encoded.data.is_empty());

    let mut dec = JpegDecoder;
    let out = dec.decode(&encoded).unwrap().unwrap();
    assert_eq!((out.width, out.height), (160, 120));
    assert_eq!(out.bgra.len(), 160 * 120 * 4);
}

#[test]
fn full_pipeline_capture_encode_transport_decode() {
    let mut src = TestPatternSource::new(320, 240);
    let frame = src.next_frame().unwrap().unwrap();

    let encoded = JpegEncoder::default().encode(&frame).unwrap();

    let chunks = split_frame(0, encoded.keyframe, &encoded.data, DEFAULT_MAX_CHUNK);
    assert!(chunks.len() > 1, "a 320x240 JPEG should span multiple chunks");
    let mut re = Reassembler::new();
    let mut reassembled = None;
    for c in chunks {
        if let Some(out) = re.push(c) {
            reassembled = Some(out);
        }
    }
    let (keyframe, payload) = reassembled.expect("frame reassembled");
    assert!(keyframe);
    assert_eq!(payload, encoded.data, "transport must reassemble byte-for-byte");

    let out = JpegDecoder
        .decode(&EncodedFrame { keyframe, data: payload })
        .unwrap()
        .unwrap();
    assert_eq!((out.width, out.height), (320, 240));
}

#[test]
fn encoder_refuses_short_buffer() {
    let frame = Frame { width: 4, height: 4, stride: 16, bgra: vec![0; 10] };
    assert_eq!(
        JpegEncoder::default().encode(&frame).map(|_| ()),
        Err(PipelineError::BufferTooSmall)
    );
    let narrow = Frame { width: 4, height: 1, stride: 8, bgra: vec![0; 64] };
    assert_eq!(
        JpegEncoder::default().encode(&narrow).map(|_| ()),
        Err(PipelineError::BufferTooSmall)
    );
}

#[test]
fn encoder_refuses_empty_image() {
    let frame = Frame { width: 0, height: 0, stride: 0, bgra: vec![] };
    assert!(matches!(
        JpegEncoder { quality: 50 }.encode(&frame),
        Err(PipelineError::Codec(_))
    ));
}

#[test]
fn decoder_refuses_garbage() {
    assert!(matches!(
        JpegDecoder.decode(&EncodedFrame { keyframe: true, data: vec![1, 2, 3] }),
        Err(PipelineError::Codec(_))
    ));
}

#[test]
fn packing_drops_padding_and_reorders_channels() {
    // Two pixels per row, stride 12 (4 bytes of padding), two rows.
    let frame = Frame {
        width: 2,
        height: 2,
        stride: 12,
        bgra: vec![
            1, 2, 3, 255, 4, 5, 6, 255, 99, 99, 99, 99, //
            7, 8, 9, 255, 10, 11, 12, 255, 99, 99, 99, 99,
        ],
    };
    assert_eq!(bgra_to_rgb(&frame), vec![3, 2, 1, 6, 5, 4, 9, 8, 7, 12, 11, 10]);
}

#[test]
fn channel_swap_is_its_own_inverse() {
    let mut px = vec![1, 2, 3, 4, 5, 6, 7, 8, 9, 10];
    swap_red_blue(&mut px);
    assert_eq!(px, vec![3, 2, 1, 4, 7, 6, 5, 8, 9, 10]);
    swap_red_blue(&mut px);
    assert_eq!(px, vec![1, 2, 3, 4, 5, 6, 7, 8, 9, 10]);
}

#[test]
fn decoded_rgba_becomes_bgra_and_back() {
    let f = frame_from_rgba(1, 1, vec![10, 20, 30, 40]);
    assert_eq!(f.stride, 4);
    assert_eq!(f.bgra, vec![30, 20, 10, 40]);
    let shown = RgbaFrame::from_bgra(f);
    assert_eq!((shown.width, shown.height), (1, 1));
    assert_eq!(shown.rgba, vec![10, 20, 30, 40]);
}

// ---- transport ----

#[test]
fn split_then_reassemble_roundtrips() {
    let data = payload(5000);
    let chunks = split_frame(1, true, &data, 1100);
    assert!(chunks.len() >= 5);
    let mut r = Reassembler::new();
    let mut done = None;
    for c in chunks {
        if let Some(out) = r.push(c) {
            done = Some(out);
        }
    }
    let (kf, out) = done.expect("frame completed");
    assert!(kf);
    assert_eq!(out, data);
}

#[test]
fn reassembles_out_of_order() {
    let data = payload(3000);
    let mut chunks = split_frame(7, false, &data, 1000);
    chunks.reverse();
    let mut r = Reassembler::new();
    let mut got = None;
    for c in chunks {
        if let Some(out) = r.push(c) {
            got = Some(out);
        }
    }
    assert_eq!(got.unwrap().1, data);
}

#[test]
fn missing_chunk_never_completes() {
    let data = payload(3000);
    let mut chunks = split_frame(2, false, &data, 1000);
    chunks.remove(1);
    let mut r = Reassembler::new();
    let mut completed = false;
    for c in chunks {
        if r.push(c).is_some() {
            completed = true;
        }
    }
    assert!(!completed, "a frame with a missing chunk must not complete");
}

#[test]
fn newer_frame_supersedes_incomplete_one() {
    let f1 = split_frame(10, true, &payload(3000), 1000);
    let f2 = split_frame(11, false, &payload(1500), 1000);
    let mut r = Reassembler::new();
    assert!(r.push(f1[0].clone()).is_none());
    let mut out = None;
    for c in f2 {
        if let Some(o) = r.push(c) {
            out = Some(o);
        }
    }
    assert!(out.is_some(), "frame 11 should complete despite partial frame 10");
    assert_eq!(out.unwrap().1.len(), 1500);
}

#[test]
fn empty_frame_is_one_chunk() {
    let chunks = split_frame(1, true, &[], 1000);
    assert_eq!(chunks.len(), 1);
    let mut r = Reassembler::new();
    let (_, out) = r.push(chunks[0].clone()).unwrap();
    assert!(out.is_empty());
}

#[test]
fn chunk_fields_and_sizes() {
    let data = payload(2500);
    let chunks = split_frame(9, true, &data, 1000);
    assert_eq!(chunks.len(), 3);
    assert_eq!(chunks[2].index, 2);
    assert_eq!(chunks[2].count, 3);
    assert_eq!(chunks[2].data.len(), 500);
    assert!(chunks.iter().all(|c| c.frame_id == 9 && c.keyframe));
    // A zero limit still makes progress, one byte per chunk.
    assert_eq!(split_frame(1, false, &[1, 2, 3], 0).len(), 3);
}

#[test]
fn duplicate_chunk_does_not_complete_twice() {
    let data = payload(1500);
    let chunks = split_frame(3, false, &data, 1000);
    let mut r = Reassembler::new();
    assert!(r.push(chunks[0].clone()).is_none());
    assert!(r.push(chunks[0].clone()).is_none());
    assert!(r.push(chunks[1].clone()).is_some());
}
