use obamify::recorder::{
    GifRecorder, GifStatus, RecorderError, SeedColor, GIF_MAX_FRAMES, GIF_MIN_FRAMES,
    PADDED_ROW_BYTES,
};

const SIDE: usize = 400;

fn seeds() -> Vec<SeedColor> {
    vec![
        SeedColor { rgba: [255, 0, 0, 255] },
        SeedColor { rgba: [0, 255, 0, 255] },
        SeedColor { rgba: [0, 0, 255, 255] },
    ]
}

fn staging_of(rgba: [u8; 4]) -> Vec<u8> {
    let mut buf = vec![0xAAu8; PADDED_ROW_BYTES * SIDE];
    for y in 0..SIDE {
        for x in 0..SIDE {
            let at = y * PADDED_ROW_BYTES + x * 4;
            buf[at..at + 4].copy_from_slice(&rgba);
        }
    }
    buf
}

fn started() -> GifRecorder {
    let mut rec = GifRecorder::new();
    rec.init_encoder(&seeds()).unwrap();
    rec
}

#[test]
fn new_recorder_is_idle() {
    let rec = GifRecorder::new();
    assert_eq!(rec.id, 0);
    assert!(rec.not_recording());
    assert!(!rec.is_recording());
    assert!(rec.no_inflight());
    assert_eq!(rec.frame_count, 0);
    assert!(!rec.should_stop());
}

#[test]
fn start_enters_recording() {
    let rec = started();
    assert!(rec.is_recording());
    assert!(!rec.not_recording());
    assert!(rec.encoder.is_some());
    assert!(rec.palette.is_some());
    assert_eq!(rec.frame_count, 0);
    assert!(rec.no_inflight());
}

#[test]
fn ticks_without_readiness_count_nothing() {
    let mut rec = started();
    assert!(rec.begin_readback());
    for _ in 0..5 {
        assert_eq!(rec.try_write_frame(None), Ok(false));
        assert!(!rec.begin_readback());
    }
    assert_eq!(rec.frame_count, 0);
    assert!(!rec.no_inflight());
}

#[test]
fn idle_recorder_submits_nothing() {
    let mut rec = GifRecorder::new();
    assert!(!rec.begin_readback());
    assert!(rec.no_inflight());
}

#[test]
fn solid_frames_stop_only_at_maximum() {
    let mut rec = started();
    let frame = staging_of([255, 0, 0, 255]);
    for _ in 0..120 {
        assert!(rec.begin_readback());
        assert_eq!(rec.try_write_frame(Some(&frame)), Ok(true));
    }
    assert_eq!(rec.frame_count, 120);
    assert!(!rec.should_stop());
    for _ in 120..140 {
        assert!(rec.begin_readback());
        assert_eq!(rec.try_write_frame(Some(&frame)), Ok(true));
    }
    assert_eq!(rec.frame_count, GIF_MAX_FRAMES);
    assert!(rec.should_stop());
    assert!(!rec.begin_readback());
    assert_eq!(rec.frame_count, 140);
}

#[test]
fn frame_is_unpadded() {
    let mut rec = started();
    let mut frame = staging_of([1, 2, 3, 4]);
    frame[PADDED_ROW_BYTES] = 9;
    assert!(rec.begin_readback());
    assert_eq!(rec.try_write_frame(Some(&frame)), Ok(true));
    assert_eq!(rec.rgba_buffer.len(), SIDE * SIDE * 4);
    assert_eq!(&rec.rgba_buffer[0..4], &[1, 2, 3, 4]);
    assert_eq!(&rec.rgba_buffer[SIDE * 4..SIDE * 4 + 4], &[9, 2, 3, 4]);
    assert!(rec.rgba_buffer.iter().all(|&b| b != 0xAA));
    assert_eq!(rec.quantized_buffer.len(), SIDE * SIDE);
    assert_eq!(rec.frame_count, 1);
}

#[test]
fn no_stop_below_minimum_even_over_budget() {
    let mut rec = GifRecorder::new();
    rec.should_stop = true;
    for n in [0u32, 1, 50, GIF_MIN_FRAMES - 1] {
        rec.frame_count = n;
        assert!(!rec.should_stop());
    }
    rec.frame_count = GIF_MIN_FRAMES;
    assert!(rec.should_stop());
    rec.should_stop = false;
    assert!(!rec.should_stop());
    rec.frame_count = GIF_MAX_FRAMES;
    assert!(rec.should_stop());
}

#[test]
fn stop_discards_pending_readback() {
    let mut rec = started();
    assert!(rec.begin_readback());
    rec.stop();
    assert_eq!(rec.id, 1);
    assert!(rec.not_recording());
    assert!(rec.no_inflight());
    assert!(rec.encoder.is_none());
    let frame = staging_of([0, 0, 255, 255]);
    assert_eq!(rec.try_write_frame(Some(&frame)), Ok(false));
    assert_eq!(rec.frame_count, 0);
    rec.init_encoder(&seeds()).unwrap();
    rec.stop();
    assert_eq!(rec.id, 2);
}

#[test]
fn frame_without_encoder_is_an_error() {
    let mut rec = GifRecorder::new();
    rec.inflight = true;
    let frame = staging_of([0, 0, 0, 255]);
    assert_eq!(rec.try_write_frame(Some(&frame)), Err(RecorderError::InvalidState));
    assert!(matches!(rec.status, GifStatus::Error(_)));
    assert!(rec.no_inflight());
}

#[test]
fn finish_yields_gif_bytes() {
    let mut rec = started();
    let frame = staging_of([0, 255, 0, 255]);
    for _ in 0..3 {
        assert!(rec.begin_readback());
        assert_eq!(rec.try_write_frame(Some(&frame)), Ok(true));
    }
    let bytes = rec.finish().unwrap();
    assert_eq!(&bytes[0..6], b"GIF89a");
    assert_eq!(u16::from_le_bytes([bytes[6], bytes[7]]), 400);
    assert_eq!(*bytes.last().unwrap(), 0x3B);
    assert!(rec.is_recording());
    assert!(rec.encoder.is_none());
    let again = rec.finish().unwrap();
    assert_eq!(again, bytes);
    assert!(rec.is_recording());
    rec.complete(Some("out.gif".to_string()));
    assert!(rec.output.is_none());
    assert!(matches!(rec.status, GifStatus::Complete(Some(ref p)) if p == "out.gif"));
}

#[test]
fn header_holds_table_and_loop() {
    let mut rec = started();
    let bytes = rec.finish().unwrap();
    assert_eq!(&bytes[0..13], &[0x47, 0x49, 0x46, 0x38, 0x39, 0x61, 0x90, 0x01, 0x90, 0x01, 0xF7, 0, 0]);
    assert_eq!(bytes.len(), 13 + 768 + 19 + 1);
    assert_eq!(&bytes[13 + 768..13 + 768 + 3], &[0x21, 0xFF, 11]);
    assert_eq!(&bytes[13 + 768 + 3..13 + 768 + 14], b"NETSCAPE2.0");
}

#[test]
fn seed_alpha_does_not_change_palette() {
    let mut a = started();
    let mut b = GifRecorder::new();
    let faded: Vec<SeedColor> = seeds().iter().map(|s| SeedColor { rgba: [s.rgba[0], s.rgba[1], s.rgba[2], 7] }).collect();
    b.init_encoder(&faded).unwrap();
    assert_eq!(a.finish().unwrap(), b.finish().unwrap());
}

#[test]
fn finish_without_recording_is_an_error() {
    let mut rec = GifRecorder::new();
    assert!(rec.finish().is_none());
    assert!(matches!(rec.status, GifStatus::Error(_)));
}

#[test]
fn names_for_saving() {
    let rec = GifRecorder::new();
    assert_eq!(rec.get_name("cat".to_string(), false), "obamify_cat");
    assert_eq!(rec.get_name("cat".to_string(), true), "unobamify_cat");
}

#[test]
fn status_predicates() {
    assert!(GifStatus::Recording.is_recording());
    assert!(!GifStatus::Idle.is_recording());
    assert!(GifStatus::Idle.not_recording());
    assert!(!GifStatus::Error("x".to_string()).not_recording());
}

#[test]
fn noisy_frames_are_appended_within_budget() {
    let mut rec = started();
    let mut state: u32 = 12345;
    for n in 1..=4u32 {
        assert!(rec.begin_readback());
        let mut frame = vec![0u8; PADDED_ROW_BYTES * SIDE];
        for b in frame.iter_mut() {
            state = state.wrapping_mul(1664525).wrapping_add(1013904223);
            *b = (state >> 24) as u8;
        }
        assert_eq!(rec.try_write_frame(Some(&frame)), Ok(true));
        assert_eq!(rec.frame_count, n);
        assert!(!rec.should_stop);
    }
    let bytes = rec.finish().unwrap();
    assert!(bytes.len() > 4 * 1000);
    assert!(bytes.len() <= obamify::recorder::GIF_MAX_SIZE);
}
