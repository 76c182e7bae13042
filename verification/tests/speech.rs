//! Transcript noise filter, wake words, barge-in, TTS engine choice and
//! TTS output decoding.
use gclaw::voice::bargein::{interruption_result, needs_transcript, BargeInController, BargeInResult, EnergyMonitor};
use gclaw::voice::error::VoiceError;
use gclaw::voice::stt::{is_noise_text, is_noise_trimmed, WhisperModel};
use gclaw::voice::tts::{self, EspeakTts};
use gclaw::voice::wake::WakeWordDetector;
use gclaw::voice::wav::{decode_pcm16_le, decode_wav, PcmSamples, WavError};

#[test]
fn noise_detection() {
    assert!(is_noise_text("Thank you."));
    assert!(is_noise_text("..."));
    assert!(is_noise_text("a"));
    assert!(!is_noise_text("hello world"));
}

#[test]
fn noise_all_hallucinations() {
    let hallucinations = [
        "Thank you.", "thanks for watching.", "Thank you for watching.",
        "thanks for watching!", "The end.", "you", "Bye.", "bye!",
        "bye bye.", "...", "so", "i'm sorry.",
    ];
    for h in hallucinations {
        assert!(is_noise_text(h), "\"{h}\" should be noise");
    }
}

#[test]
fn noise_short_text() {
    assert!(is_noise_text("a"));
    assert!(is_noise_text(""));
    assert!(is_noise_text(" "));
}

#[test]
fn noise_all_punctuation() {
    assert!(is_noise_text("...!?"));
    assert!(is_noise_text("---"));
}

#[test]
fn not_noise_valid_speech() {
    let cases = [
        "hello world", "what time is it", "set a timer for 5 minutes",
        "play some music", "hey G what's the weather",
    ];
    for text in cases {
        assert!(!is_noise_text(text), "\"{text}\" should NOT be noise");
    }
}

#[test]
fn not_noise_unicode() {
    assert!(!is_noise_text("こんにちは"));
}

#[test]
fn noise_trims_before_checking() {
    assert!(is_noise_text("   Thank You.  \n"));
    assert!(is_noise_text(" \t- ! \u{3000}"));
    // Length counts characters, not bytes.
    assert!(is_noise_text(" é "));
    assert!(!is_noise_text("ét"));
}

#[test]
fn noise_rule_on_given_lowercase_form() {
    assert!(is_noise_trimmed("Thank you.", "thank you."));
    // The hallucination check reads the lowercase form it is given.
    assert!(is_noise_trimmed("Hello there", "so"));
    assert!(!is_noise_trimmed("Hello there", "hello there"));
    assert!(is_noise_trimmed("x", "x"));
    assert!(is_noise_trimmed("?!", "?!"));
}

#[test]
fn whisper_model_file_names() {
    assert_eq!(WhisperModel::Tiny.filename(), "ggml-tiny.bin");
    assert_eq!(WhisperModel::Base.filename(), "ggml-base.bin");
    assert_eq!(WhisperModel::Small.filename(), "ggml-small.bin");
    assert_eq!(WhisperModel::Medium.filename(), "ggml-medium.bin");
}

#[test]
fn wake_words_single_char_name() {
    let d = WakeWordDetector::new("G");
    let words: Vec<&str> = d.wake_words().iter().map(|s| s.as_str()).collect();
    assert_eq!(
        words,
        vec![
            "hey g", "hey g!", "g", "ok g", "okay g", "yo g", "gee", "ji", "jee", "gee gee",
            "hey gee", "hey ji",
        ]
    );
    assert_eq!(d.ai_name(), "G");
}

#[test]
fn wake_words_long_name() {
    let d = WakeWordDetector::new("Computer");
    let words: Vec<&str> = d.wake_words().iter().map(|s| s.as_str()).collect();
    assert_eq!(
        words,
        vec![
            "hey computer", "hey computer!", "computer", "ok computer", "okay computer",
            "yo computer", "hi computer", "hello computer",
        ]
    );
}

#[test]
fn wake_words_j_and_two_letter_names() {
    let d = WakeWordDetector::new("J");
    assert_eq!(d.wake_words().len(), 8);
    assert_eq!(d.wake_words()[7], "hey jay");
    let d = WakeWordDetector::new("Al");
    assert_eq!(d.wake_words().len(), 6);
}

#[test]
fn wake_exact_substring() {
    let d = WakeWordDetector::new("Jarvis");
    let t = WakeWordDetector::normalize("  Hey Jarvis, what time is it?  ");
    assert_eq!(t, "hey jarvis, what time is it?");
    assert!(d.contains_wake_word(&t));
    assert!(!d.contains_wake_word("the stock market crashed today"));
}

#[test]
fn wake_custom_variant() {
    let mut d = WakeWordDetector::new("G");
    d.add_variant("Activate");
    assert_eq!(d.wake_words().last().unwrap(), "activate");
    assert!(d.contains_wake_word("activate"));
}

#[test]
fn bargein_monitor_needs_three_loud_frames_in_a_row() {
    let mut m = EnergyMonitor::new();
    assert!(!m.observe(true));
    assert!(!m.observe(true));
    assert!(!m.observe(false));
    assert_eq!(m.consecutive(), 0);
    assert!(!m.observe(true));
    assert!(!m.observe(true));
    assert!(m.observe(true));
    assert_eq!(m.consecutive(), 3);
}

#[test]
fn bargein_result_filters_noise() {
    assert!(matches!(interruption_result("wait".into(), false), BargeInResult::Interrupted(t) if t == "wait"));
    assert!(matches!(interruption_result("wait".into(), true), BargeInResult::Completed));
    assert!(matches!(interruption_result(String::new(), false), BargeInResult::Completed));
}

#[test]
fn bargein_controller_switch() {
    let c = BargeInController::new();
    assert!(!c.is_stopped());
    c.stop();
    assert!(c.is_stopped());
    c.arm();
    assert!(!c.is_stopped());
    let flag = c.stop_flag();
    flag.store(true, std::sync::atomic::Ordering::SeqCst);
    assert!(c.is_stopped());
}

struct MockEngine {
    name: &'static str,
}

impl MockEngine {
    fn name(&self) -> &str {
        self.name
    }
}

#[test]
fn tts_select_english_prefers_piper() {
    let piper = MockEngine { name: "piper" };
    let espeak = MockEngine { name: "espeak" };
    let engine = tts::select_engine("en", Some(&piper), Some(&espeak));
    assert_eq!(engine.unwrap().name(), "piper");
}

#[test]
fn tts_select_hindi_prefers_espeak() {
    let piper = MockEngine { name: "piper" };
    let espeak = MockEngine { name: "espeak" };
    let engine = tts::select_engine("hi", Some(&piper), Some(&espeak));
    assert_eq!(engine.unwrap().name(), "espeak");
}

#[test]
fn tts_select_english_fallback_espeak() {
    let espeak = MockEngine { name: "espeak" };
    let engine = tts::select_engine("en", None, Some(&espeak));
    assert_eq!(engine.unwrap().name(), "espeak");
}

#[test]
fn tts_select_neither_available() {
    let engine = tts::select_engine::<MockEngine>("en", None, None);
    assert!(engine.is_none());
}

#[test]
fn tts_select_empty_language_defaults_to_piper() {
    let piper = MockEngine { name: "piper" };
    let engine = tts::select_engine("", Some(&piper), None);
    assert_eq!(engine.unwrap().name(), "piper");
}

#[test]
fn tts_select_other_language_falls_back_to_piper() {
    let piper = MockEngine { name: "piper" };
    let engine = tts::select_engine("english", Some(&piper), None);
    assert_eq!(engine.unwrap().name(), "piper");
    let engine = tts::select_engine("fr", Some(&piper), None);
    assert_eq!(engine.unwrap().name(), "piper");
}

#[test]
fn espeak_settings() {
    let mut e = EspeakTts::new("/usr/bin/espeak-ng".into(), "en");
    assert_eq!(e.binary_path(), "/usr/bin/espeak-ng");
    assert_eq!(e.voice(), "en");
    assert_eq!(e.speed(), 175);
    e.set_voice("hi");
    e.set_speed(140);
    assert_eq!(e.voice(), "hi");
    assert_eq!(e.speed(), 140);
}

fn chunk(id: &[u8; 4], body: &[u8]) -> Vec<u8> {
    let mut c = id.to_vec();
    c.extend_from_slice(&(body.len() as u32).to_le_bytes());
    c.extend_from_slice(body);
    if body.len() % 2 == 1 {
        c.push(0);
    }
    c
}

fn wav(chunks: &[Vec<u8>]) -> Vec<u8> {
    let mut w = b"RIFF".to_vec();
    w.extend_from_slice(&0u32.to_le_bytes());
    w.extend_from_slice(b"WAVE");
    for c in chunks {
        w.extend_from_slice(c);
    }
    w
}

fn fmt_body(rate: u32, bits: u16) -> Vec<u8> {
    let mut f = vec![1, 0, 1, 0];
    f.extend_from_slice(&rate.to_le_bytes());
    f.extend_from_slice(&(rate * 2).to_le_bytes());
    f.extend_from_slice(&2u16.to_le_bytes());
    f.extend_from_slice(&bits.to_le_bytes());
    f
}

#[test]
fn wav_16_bit_with_extra_chunk() {
    let samples: [i16; 3] = [0, -1, 32767];
    let mut data = Vec::new();
    for s in samples {
        data.extend_from_slice(&s.to_le_bytes());
    }
    let file = wav(&[chunk(b"fmt ", &fmt_body(16000, 16)), chunk(b"LIST", b"odd"), chunk(b"data", &data)]);
    match decode_wav(&file) {
        Ok((rate, PcmSamples::Signed16(v))) => {
            assert_eq!(rate, 16000);
            assert_eq!(v, vec![0, -1, 32767]);
        }
        other => panic!("unexpected {other:?}"),
    }
}

#[test]
fn wav_8_bit_and_default_rate() {
    // No fmt chunk: the default rate and 16 bits apply.
    let file = wav(&[chunk(b"data", &[0x00, 0x80, 0xff, 0x7f])]);
    match decode_wav(&file) {
        Ok((rate, PcmSamples::Signed16(v))) => {
            assert_eq!(rate, 22050);
            assert_eq!(v, vec![-32768, 32767]);
        }
        other => panic!("unexpected {other:?}"),
    }
    let file = wav(&[chunk(b"fmt ", &fmt_body(8000, 8)), chunk(b"data", &[128, 0, 255])]);
    match decode_wav(&file) {
        Ok((rate, PcmSamples::Unsigned8(v))) => {
            assert_eq!(rate, 8000);
            assert_eq!(v, vec![128, 0, 255]);
        }
        other => panic!("unexpected {other:?}"),
    }
}

#[test]
fn wav_data_length_cut_at_end_of_file() {
    let mut file = wav(&[chunk(b"data", &[1, 0, 2, 0])]);
    // Claim more data than there is.
    let n = file.len();
    file[n - 8..n - 4].copy_from_slice(&100u32.to_le_bytes());
    match decode_wav(&file) {
        Ok((_, PcmSamples::Signed16(v))) => assert_eq!(v, vec![1, 2]),
        other => panic!("unexpected {other:?}"),
    }
}

#[test]
fn wav_errors() {
    assert_eq!(decode_wav(b"RIFF").unwrap_err(), WavError::OutputTooShort(4));
    assert_eq!(decode_wav(b"RIFX\0\0\0\0WAVEdata").unwrap_err(), WavError::NotWav);
    assert_eq!(decode_wav(&wav(&[chunk(b"fmt ", &fmt_body(16000, 16))])).unwrap_err(), WavError::NoDataChunk);
    assert_eq!(decode_wav(&wav(&[chunk(b"data", &[])])).unwrap_err(), WavError::NoDataChunk);
    assert_eq!(
        decode_wav(&wav(&[chunk(b"fmt ", &fmt_body(16000, 24)), chunk(b"data", &[0, 0, 0])])).unwrap_err(),
        WavError::UnsupportedBitsPerSample(24)
    );
}

#[test]
fn pcm16_decoding() {
    assert_eq!(decode_pcm16_le(&[0x34, 0x12, 0x00, 0x80, 0xff]), vec![0x1234, -32768]);
    assert!(decode_pcm16_le(&[]).is_empty());
}

#[test]
fn voice_error_messages() {
    assert_eq!(VoiceError::NoInputDevice.message(), "no input device available");
    assert_eq!(VoiceError::VadInit("bad model".into()).message(), "VAD initialization failed: bad model");
    assert_eq!(VoiceError::Shutdown.message(), "shutdown requested");
}

#[test]
fn wake_words_from_given_lowercase_name() {
    let d = WakeWordDetector::with_lowercase_name("Jarvis", "jarvis");
    assert_eq!(d.ai_name(), "Jarvis");
    assert_eq!(
        d.wake_words(),
        &vec![
            "hey jarvis", "hey jarvis!", "jarvis", "ok jarvis", "okay jarvis", "yo jarvis",
            "hi jarvis", "hello jarvis",
        ]
    );
    let g = WakeWordDetector::with_lowercase_name("G", "g");
    assert_eq!(g.wake_words().len(), 12);
    assert_eq!(g.wake_words()[6], "gee");
}

#[test]
fn bargein_transcribes_only_a_stop_with_speech_captured() {
    assert!(!needs_transcript(true, 48_000));
    assert!(!needs_transcript(false, 0));
    assert!(needs_transcript(false, 1));
}
