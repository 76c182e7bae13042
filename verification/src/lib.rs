//! gclaw: the verified core of a voice-first assistant shell.
//!
//! - `ipc`: the wire protocol between the voice shell, the brain and the
//!   tool runtime, its length-prefixed framing and the frame reader.
//! - `config`: configuration records, Fernet token encryption and
//!   decryption of stored secrets, and validation.
//! - `voice`: the voice pipeline's state machines and decisions: ring
//!   buffer, speech tracking, barge-in, noise filtering, wake words, TTS
//!   output parsing and the shell's main-loop decisions.
//! - `text`: character-level helpers shared by the modules above.

pub mod text;
pub mod ipc;
pub mod config;
pub mod voice;
