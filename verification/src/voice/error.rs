//! Voice subsystem errors.
use vstd::prelude::*;
use vstd::string::*;

verus! {

/// Voice subsystem errors.
#[derive(Debug, Clone)]
pub enum VoiceError {
    AudioDevice(String),
    NoInputDevice,
    NoOutputDevice,
    VadInit(String),
    VadInference(String),
    SttModelLoad(String),
    SttTranscribe(String),
    TtsSynthesize(String),
    TtsNotFound(String),
    Ipc(String),
    Config(String),
    Shutdown,
}

/// The message describing an error.
pub open spec fn voice_error_message(e: VoiceError) -> Seq<char> {
    match e {
        VoiceError::AudioDevice(s) => "audio device error: "@ + s@,
        VoiceError::NoInputDevice => "no input device available"@,
        VoiceError::NoOutputDevice => "no output device available"@,
        VoiceError::VadInit(s) => "VAD initialization failed: "@ + s@,
        VoiceError::VadInference(s) => "VAD inference failed: "@ + s@,
        VoiceError::SttModelLoad(s) => "STT model load failed: "@ + s@,
        VoiceError::SttTranscribe(s) => "STT transcription failed: "@ + s@,
        VoiceError::TtsSynthesize(s) => "TTS synthesis failed: "@ + s@,
        VoiceError::TtsNotFound(s) => "TTS engine not found: "@ + s@,
        VoiceError::Ipc(s) => "IPC error: "@ + s@,
        VoiceError::Config(s) => "config error: "@ + s@,
        VoiceError::Shutdown => "shutdown requested"@,
    }
}

fn prefixed(prefix: &str, detail: &String) -> (r: String)
    ensures
        r@ == prefix@ + detail@,
{
    let mut s = String::from_str(prefix);
    s.append(detail.as_str());
    s
}

impl VoiceError {
    /// The error's message.
    pub fn message(&self) -> (r: String)
        ensures
            r@ == voice_error_message(*self),
    {
        match self {
            VoiceError::AudioDevice(s) => prefixed("audio device error: ", s),
            VoiceError::NoInputDevice => String::from_str("no input device available"),
            VoiceError::NoOutputDevice => String::from_str("no output device available"),
            VoiceError::VadInit(s) => prefixed("VAD initialization failed: ", s),
            VoiceError::VadInference(s) => prefixed("VAD inference failed: ", s),
            VoiceError::SttModelLoad(s) => prefixed("STT model load failed: ", s),
            VoiceError::SttTranscribe(s) => prefixed("STT transcription failed: ", s),
            VoiceError::TtsSynthesize(s) => prefixed("TTS synthesis failed: ", s),
            VoiceError::TtsNotFound(s) => prefixed("TTS engine not found: ", s),
            VoiceError::Ipc(s) => prefixed("IPC error: ", s),
            VoiceError::Config(s) => prefixed("config error: ", s),
            VoiceError::Shutdown => String::from_str("shutdown requested"),
        }
    }
}

} // verus!
