//! Capture ring buffer and speech tracking.
use gclaw::voice::audio::{capture_capacity, AudioRingBuffer, CAPTURE_BUFFER_SECS};
use gclaw::voice::vad::{SpeechTracker, VadDecision, MAX_SILENCE_FRAMES, MAX_SPEECH_FRAMES, MIN_SPEECH_FRAMES};

#[test]
fn ring_buffer_basic() {
    let mut rb = AudioRingBuffer::new(10);
    rb.write(&[1.0, 2.0, 3.0, 4.0, 5.0]);
    let out = rb.read_last(3);
    assert_eq!(out, vec![3.0, 4.0, 5.0]);
}

#[test]
fn ring_buffer_wraparound() {
    let mut rb = AudioRingBuffer::new(4);
    rb.write(&[1.0, 2.0, 3.0, 4.0, 5.0, 6.0]); // wraps around
    let out = rb.read_last(4);
    assert_eq!(out, vec![3.0, 4.0, 5.0, 6.0]);
}

#[test]
fn ring_buffer_read_more_than_written() {
    let mut rb = AudioRingBuffer::new(10);
    rb.write(&[1.0, 2.0]);
    let out = rb.read_last(5); // only 2 available
    assert_eq!(out, vec![1.0, 2.0]);
}

#[test]
fn ring_buffer_capacity_one() {
    let mut rb = AudioRingBuffer::new(1);
    rb.write(&[1.0]);
    assert_eq!(rb.read_last(1), vec![1.0]);
    rb.write(&[2.0]);
    assert_eq!(rb.read_last(1), vec![2.0]);
}

#[test]
fn ring_buffer_exact_capacity() {
    let mut rb = AudioRingBuffer::new(4);
    rb.write(&[1.0, 2.0, 3.0, 4.0]);
    assert_eq!(rb.read_last(4), vec![1.0, 2.0, 3.0, 4.0]);
}

#[test]
fn ring_buffer_read_zero() {
    let mut rb = AudioRingBuffer::<f32>::new(10);
    rb.write(&[1.0, 2.0]);
    assert_eq!(rb.read_last(0), Vec::<f32>::new());
}

#[test]
fn ring_buffer_stress() {
    let mut rb = AudioRingBuffer::new(1000);
    // Write 100K samples in chunks.
    for batch in 0..1000 {
        let chunk: Vec<f32> = (0..100).map(|i| (batch * 100 + i) as f32).collect();
        rb.write(&chunk);
    }
    // Last 5 samples should be 99995..99999.
    let last5 = rb.read_last(5);
    assert_eq!(last5, vec![99995.0, 99996.0, 99997.0, 99998.0, 99999.0]);
    assert_eq!(rb.total_written(), 100_000);
}

#[test]
fn ring_buffer_multiple_wraps() {
    let mut rb = AudioRingBuffer::new(3);
    for i in 0..20 {
        rb.write(&[i as f32]);
    }
    // Buffer of size 3 with 20 writes: last 3 should be 17, 18, 19.
    assert_eq!(rb.read_last(3), vec![17.0, 18.0, 19.0]);
}

#[test]
fn ring_buffer_read_after_write_sees_newest() {
    let mut rb = AudioRingBuffer::new(5);
    rb.write(&[1u32, 2, 3, 4]);
    rb.write(&[5, 6, 7]);
    // Capacity 5: the oldest two are gone.
    assert_eq!(rb.read_last(10), vec![3, 4, 5, 6, 7]);
    assert_eq!(rb.read_last(3), vec![5, 6, 7]);
    assert_eq!(rb.total_written(), 7);
}

#[test]
fn ring_buffer_zero_capacity_reads_nothing() {
    let mut rb: AudioRingBuffer<i16> = AudioRingBuffer::new(0);
    rb.write(&[]);
    assert_eq!(rb.read_last(4), Vec::<i16>::new());
    assert_eq!(rb.total_written(), 0);
}

fn feed(t: &mut SpeechTracker, speech: bool, acc: &mut Vec<u8>, pos: u64) -> VadDecision<u8> {
    t.process_frame(speech, &[pos as u8, pos as u8], acc, pos)
}

#[test]
fn vad_utterance_start_continue_end() {
    let mut t = SpeechTracker::new();
    let mut acc: Vec<u8> = vec![9, 9, 9];
    assert!(matches!(feed(&mut t, false, &mut acc, 0), VadDecision::Silence));
    assert_eq!(acc, vec![9, 9, 9]);
    assert!(matches!(feed(&mut t, true, &mut acc, 1), VadDecision::SpeechStart));
    assert_eq!(acc, vec![1, 1]);
    assert!(t.is_in_speech());
    for p in 2..(1 + MIN_SPEECH_FRAMES as u64) {
        assert!(matches!(feed(&mut t, true, &mut acc, p), VadDecision::SpeechContinue));
    }
    // Silence until the limit: the last silent frame ends the utterance.
    let mut pos = 1 + MIN_SPEECH_FRAMES as u64;
    for _ in 0..(MAX_SILENCE_FRAMES - 1) {
        assert!(matches!(feed(&mut t, false, &mut acc, pos), VadDecision::SpeechContinue));
        pos += 1;
    }
    match feed(&mut t, false, &mut acc, pos) {
        VadDecision::SpeechEnd(seg) => {
            assert_eq!(seg.start_sample, 1);
            assert_eq!(seg.audio.len(), 2 * (MIN_SPEECH_FRAMES + MAX_SILENCE_FRAMES) as usize);
            assert_eq!(&seg.audio[..2], &[1, 1]);
        }
        other => panic!("expected the end of the utterance, got {other:?}"),
    }
    assert!(acc.is_empty());
    assert!(!t.is_in_speech());
}

#[test]
fn vad_short_utterance_is_discarded() {
    let mut t = SpeechTracker::new();
    let mut acc: Vec<u8> = Vec::new();
    assert!(matches!(feed(&mut t, true, &mut acc, 0), VadDecision::SpeechStart));
    let mut last = VadDecision::SpeechStart;
    for p in 1..=(MAX_SILENCE_FRAMES as u64) {
        last = feed(&mut t, false, &mut acc, p);
    }
    assert!(matches!(last, VadDecision::Silence));
    assert!(acc.is_empty());
    assert!(!t.is_in_speech());
}

#[test]
fn vad_speech_resets_silence_count() {
    let mut t = SpeechTracker::new();
    let mut acc: Vec<u8> = Vec::new();
    feed(&mut t, true, &mut acc, 0);
    for p in 1..(MAX_SILENCE_FRAMES as u64) {
        feed(&mut t, false, &mut acc, p);
    }
    // One more speech frame: the silence run starts over.
    assert!(matches!(feed(&mut t, true, &mut acc, 100), VadDecision::SpeechContinue));
    assert!(matches!(feed(&mut t, false, &mut acc, 101), VadDecision::SpeechContinue));
    assert!(t.is_in_speech());
    t.reset();
    assert!(!t.is_in_speech());
}

#[test]
fn vad_unbroken_speech_is_cut_at_the_cap() {
    assert_eq!(MAX_SPEECH_FRAMES, 1875);
    let mut t = SpeechTracker::new();
    let mut acc: Vec<u8> = Vec::new();
    assert!(matches!(feed(&mut t, true, &mut acc, 7), VadDecision::SpeechStart));
    for p in 1..(MAX_SPEECH_FRAMES as u64 - 1) {
        assert!(matches!(feed(&mut t, true, &mut acc, p), VadDecision::SpeechContinue));
    }
    match feed(&mut t, true, &mut acc, 0) {
        VadDecision::SpeechEnd(seg) => {
            assert_eq!(seg.start_sample, 7);
            assert_eq!(seg.audio.len(), 2 * MAX_SPEECH_FRAMES as usize);
        }
        other => panic!("expected the utterance to be cut, got {other:?}"),
    }
    assert!(acc.is_empty());
    assert!(!t.is_in_speech());
    // The next speech frame starts a new utterance.
    assert!(matches!(feed(&mut t, true, &mut acc, 9), VadDecision::SpeechStart));
}

#[test]
fn ring_buffer_split_writes_keep_the_latest() {
    let mut a: AudioRingBuffer<u32> = AudioRingBuffer::new(5);
    a.write(&[1, 2]);
    a.write(&[3, 4, 5, 6]);
    a.write(&[]);
    a.write(&[7]);
    let mut b: AudioRingBuffer<u32> = AudioRingBuffer::new(5);
    b.write(&[1, 2, 3, 4, 5, 6, 7]);
    assert_eq!(a.read_last(10), vec![3, 4, 5, 6, 7]);
    assert_eq!(a.read_last(10), b.read_last(10));
    assert_eq!(a.read_last(2), vec![6, 7]);
    assert_eq!(a.total_written(), 7);
}

#[test]
fn capture_buffer_holds_thirty_seconds() {
    assert_eq!(CAPTURE_BUFFER_SECS, 30);
    assert_eq!(capture_capacity(CAPTURE_BUFFER_SECS), 480_000);
    assert_eq!(capture_capacity(0), 0);
}
