//! Voice pipeline.
pub mod audio;
pub mod vad;
pub mod bargein;
pub mod state;
pub mod stt;
pub mod wav;
pub mod tts;
pub mod wake;
pub mod error;
pub mod shell;
