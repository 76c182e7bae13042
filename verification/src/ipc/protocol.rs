//! IPC message records shared by the voice shell, the brain and the tool
//! runtime.
//!
//! Voice shell → brain: user speech, wake word, barge-in, voice commands,
//! ready. Brain → voice shell: speak, speak interruptibly, stop speaking,
//! set the mic state, configure, shut down. Brain ↔ tool runtime: tool
//! execution and results. Ping and pong go both ways.
//!
//! These are the records whose fields the library reads; their MessagePack
//! form is produced and parsed around the library.
use vstd::prelude::*;
use vstd::string::*;

verus! {

/// Microphone state as the brain sees it.
#[derive(Debug, Clone, Copy, PartialEq, Eq, Structural)]
pub enum MicState {
    Idle,
    Listening,
    Processing,
    Speaking,
}

/// Display form of a mic state (also its wire name).
pub open spec fn mic_state_label(s: MicState) -> Seq<char> {
    match s {
        MicState::Idle => "IDLE"@,
        MicState::Listening => "LISTENING"@,
        MicState::Processing => "PROCESSING"@,
        MicState::Speaking => "SPEAKING"@,
    }
}

impl MicState {
    /// The state's display form: `IDLE`, `LISTENING`, `PROCESSING` or `SPEAKING`.
    pub fn display_name(&self) -> (r: String)
        ensures
            r@ == mic_state_label(*self),
    {
        match self {
            MicState::Idle => String::from_str("IDLE"),
            MicState::Listening => String::from_str("LISTENING"),
            MicState::Processing => String::from_str("PROCESSING"),
            MicState::Speaking => String::from_str("SPEAKING"),
        }
    }
}

/// Session mode as the brain sees it.
#[derive(Debug, Clone, Copy, PartialEq, Eq, Structural)]
pub enum SessionMode {
    Idle,
    Active,
}

/// The user interrupted TTS playback with `text`.
#[derive(Debug, Clone)]
pub struct BargeIn {
    pub text: String,
}

/// A meta voice command: skip, shorter, repeat, ...
#[derive(Debug, Clone)]
pub struct VoiceCommand {
    pub command: String,
}

/// Text for the voice shell to speak.
#[derive(Debug, Clone)]
pub struct SpeakRequest {
    pub text: String,
}

/// Reconfiguration of the voice shell; absent fields stay as they are.
#[derive(Debug, Clone)]
pub struct ConfigureVoice {
    pub stt_engine: Option<String>,
    pub language: Option<String>,
    pub ai_name: Option<String>,
}

/// Override of the voice shell's mic state.
#[derive(Debug, Clone)]
pub struct SetMicStateRequest {
    pub state: MicState,
}

/// Result of a tool execution, sent by the tool runtime.
#[derive(Debug, Clone)]
pub struct ToolResult {
    pub result: String,
    pub success: bool,
    pub duration_ms: u64,
    pub cache_hit: bool,
    pub error: Option<String>,
}

} // verus!
