//! The voice shell's main-loop decisions.
//!
//! IDLE: listen for the wake word (VAD → STT → wake check); a wake word
//! makes the session ACTIVE. ACTIVE: user speech goes to the brain, and the
//! brain's commands (speak, stop, set mic state, configure, shut down, ping)
//! are carried out; 90 s without activity sends the session back to IDLE.
//!
//! The audio, recognition, synthesis and IPC are performed by the caller;
//! these functions decide, from the state and what happened, the next state
//! and what to do.
use crate::ipc::protocol::{ConfigureVoice, MicState as IpcMicState, SetMicStateRequest, SpeakRequest};
use crate::ipc::transport::VOICE_TCP_PORT;
use crate::voice::state::{auto_sleep_due, MicState, SessionMode, VoiceState, AUTO_SLEEP_SECS};
use vstd::prelude::*;
use vstd::string::*;

verus! {

/// Configuration of the voice shell.
#[derive(Debug, Clone)]
pub struct VoiceShellConfig {
    /// Path to the Silero VAD ONNX model.
    pub vad_model_path: String,
    /// Path to the Whisper GGML model.
    pub whisper_model_path: String,
    /// Path to the Piper binary, if any.
    pub piper_binary_path: Option<String>,
    /// Path to the Piper voice model, if any.
    pub piper_model_path: Option<String>,
    /// AI name for wake word detection.
    pub ai_name: String,
    /// Language hint for STT (`None`: detect).
    pub language: Option<String>,
    /// IPC port for the TCP transport.
    pub ipc_port: u16,
}

impl Default for VoiceShellConfig {
    /// Models under `models/`, no Piper, name `G`, language detected, the
    /// default voice port.
    fn default() -> (r: Self)
        ensures
            r.vad_model_path@ == "models/silero_vad.onnx"@,
            r.whisper_model_path@ == "models/ggml-base.bin"@,
            r.piper_binary_path is None,
            r.piper_model_path is None,
            r.ai_name@ == "G"@,
            r.language is None,
            r.ipc_port == VOICE_TCP_PORT,
    {
        VoiceShellConfig {
            vad_model_path: String::from_str("models/silero_vad.onnx"),
            whisper_model_path: String::from_str("models/ggml-base.bin"),
            piper_binary_path: None,
            piper_model_path: None,
            ai_name: String::from_str("G"),
            language: None,
            ipc_port: VOICE_TCP_PORT,
        }
    }
}

/// The voice shell's mic state for a mic state the brain sets.
pub open spec fn voice_mic_state(s: IpcMicState) -> MicState {
    match s {
        IpcMicState::Idle => MicState::Idle,
        IpcMicState::Listening => MicState::Listening,
        IpcMicState::Processing => MicState::Processing,
        IpcMicState::Speaking => MicState::Speaking,
    }
}

/// The voice shell's mic state for a mic state the brain sets.
pub fn mic_state_from_ipc(s: IpcMicState) -> (r: MicState)
    ensures
        r == voice_mic_state(s),
{
    match s {
        IpcMicState::Idle => MicState::Idle,
        IpcMicState::Listening => MicState::Listening,
        IpcMicState::Processing => MicState::Processing,
        IpcMicState::Speaking => MicState::Speaking,
    }
}

/// Mic states map one to one between the protocol and the shell.
pub proof fn law_mic_state_mapping_injective(a: IpcMicState, b: IpcMicState)
    ensures
        voice_mic_state(a) == voice_mic_state(b) ==> a == b,
{
}

/// The brain's mic state and the shell's are the same state under two
/// names: each protocol state maps to the shell state of the same variant,
/// with the same display name.
pub proof fn law_mic_state_keeps_its_name(s: IpcMicState)
    ensures
        crate::voice::state::mic_state_label(voice_mic_state(s))
            == crate::ipc::protocol::mic_state_label(s),
        (s == IpcMicState::Idle) == (voice_mic_state(s) == MicState::Idle),
        (s == IpcMicState::Listening) == (voice_mic_state(s) == MicState::Listening),
        (s == IpcMicState::Processing) == (voice_mic_state(s) == MicState::Processing),
        (s == IpcMicState::Speaking) == (voice_mic_state(s) == MicState::Speaking),
{
}

/// A message from the brain, as the shell acts on it.
#[derive(Debug, Clone)]
pub enum BrainCommand {
    /// Speak without barge-in.
    Speak(SpeakRequest),
    /// Speak with barge-in monitoring.
    SpeakInterruptible(SpeakRequest),
    /// Force-stop current speech.
    StopSpeaking,
    /// Override the mic state.
    SetMicState(SetMicStateRequest),
    /// Reconfigure.
    Configure(ConfigureVoice),
    /// Shut down.
    Shutdown,
    /// Health check.
    Ping,
    /// The brain closed the connection.
    Disconnected,
    /// A message the shell does not act on.
    Ignored,
}

/// What the caller has to do after a brain command.
#[derive(Debug, Clone)]
pub enum ShellAction {
    Nothing,
    /// Reply with a pong.
    SendPong,
    /// Synthesize `text` with the engine for `language` and play it (with
    /// barge-in monitoring when `interruptible`), then call `finish_speaking`.
    Speak { text: String, language: String, interruptible: bool },
    /// Stop current playback.
    StopPlayback,
    /// Leave the main loop.
    Exit,
}

/// What the next turn of the main loop does.
#[derive(Debug, Clone, Copy, PartialEq, Eq, Structural)]
pub enum LoopStep {
    /// Shutdown was requested: leave the loop.
    Exit,
    /// Idle: run VAD/STT and check for the wake word.
    ListenForWake,
    /// The active session timed out and is idle again: reset the VAD.
    AutoSleep,
    /// Active: run VAD/STT for user speech and serve brain commands.
    ServeActive,
}

/// The voice shell: its configuration and state.
pub struct VoiceShell {
    config: VoiceShellConfig,
    state: VoiceState,
}

impl VoiceShell {
    pub closed spec fn spec_state(&self) -> VoiceState {
        self.state
    }

    pub closed spec fn spec_config(&self) -> VoiceShellConfig {
        self.config
    }

    /// A shell with `config` in the initial state.
    pub fn new(config: VoiceShellConfig) -> (r: Self)
        ensures
            r.spec_config() == config,
            r.spec_state().mic() == MicState::Idle,
            r.spec_state().mode() == SessionMode::Idle,
            !r.spec_state().speaking(),
            !r.spec_state().shutdown(),
            r.spec_state().language() == "en"@,
            r.spec_state().sleep_after() == AUTO_SLEEP_SECS,
    {
        VoiceShell { config, state: VoiceState::new() }
    }

    /// The current state.
    pub fn state(&self) -> (r: &VoiceState)
        ensures
            *r == self.spec_state(),
    {
        &self.state
    }

    /// The configuration.
    pub fn config(&self) -> (r: &VoiceShellConfig)
        ensures
            *r == self.spec_config(),
    {
        &self.config
    }

    /// Starts a turn of the main loop, the session having been inactive for
    /// `idle_secs` seconds.
    ///
    /// Exit when shutdown was requested. Idle: the mic is idle, listen for
    /// the wake word. Active: the mic is listening; if the session has been
    /// inactive for longer than the auto-sleep timeout it goes back to idle
    /// (`AutoSleep`), else serve.
    pub fn next_step_after(&mut self, idle_secs: u64) -> (r: LoopStep)
        ensures
            old(self).spec_state().shutdown() ==> r == LoopStep::Exit && final(self).spec_state().fields()
                == old(self).spec_state().fields(),
            !old(self).spec_state().shutdown() ==> r != LoopStep::Exit,
            !old(self).spec_state().shutdown() && old(self).spec_state().mode() == SessionMode::Idle
                ==> r == LoopStep::ListenForWake && final(self).spec_state().mic() == MicState::Idle
                && final(self).spec_state().mode() == SessionMode::Idle,
            !old(self).spec_state().shutdown() && old(self).spec_state().mode()
                == SessionMode::Active ==> (r == LoopStep::AutoSleep || r == LoopStep::ServeActive)
                && final(self).spec_state().mic() == MicState::Listening && ((r == LoopStep::AutoSleep)
                == auto_sleep_due(SessionMode::Active, idle_secs, old(self).spec_state().sleep_after())) && final(self).spec_state().mode() == (if r == LoopStep::AutoSleep {
                SessionMode::Idle
            } else {
                SessionMode::Active
            }),
            final(self).spec_state().speaking() == old(self).spec_state().speaking(),
            final(self).spec_state().language() == old(self).spec_state().language(),
            final(self).spec_state().shutdown() == old(self).spec_state().shutdown(),
            final(self).spec_state().sleep_after() == old(self).spec_state().sleep_after(),
            final(self).spec_state().last_active() == old(self).spec_state().last_active(),
            final(self).spec_config() == old(self).spec_config(),
    {
        if self.state.is_shutdown_requested() {
            return LoopStep::Exit;
        }
        match self.state.session_mode() {
            SessionMode::Idle => {
                self.state.set_mic_state(MicState::Idle);
                LoopStep::ListenForWake
            },
            SessionMode::Active => {
                self.state.set_mic_state(MicState::Listening);
                if self.state.sleep_due_after(idle_secs) {
                    self.state.set_session_mode(SessionMode::Idle);
                    LoopStep::AutoSleep
                } else {
                    LoopStep::ServeActive
                }
            },
        }
    }

    /// Starts a turn of the main loop: `next_step_after` with the idle time
    /// the clock tells.
    pub fn next_step(&mut self) -> (r: LoopStep)
        ensures
            old(self).spec_state().shutdown() ==> r == LoopStep::Exit && final(self).spec_state().fields()
                == old(self).spec_state().fields(),
            !old(self).spec_state().shutdown() ==> r != LoopStep::Exit,
            !old(self).spec_state().shutdown() && old(self).spec_state().mode() == SessionMode::Idle
                ==> r == LoopStep::ListenForWake && final(self).spec_state().mic() == MicState::Idle
                && final(self).spec_state().mode() == SessionMode::Idle,
            !old(self).spec_state().shutdown() && old(self).spec_state().mode()
                == SessionMode::Active ==> (r == LoopStep::AutoSleep || r == LoopStep::ServeActive)
                && final(self).spec_state().mic() == MicState::Listening && (exists|idle: u64|
                (r == LoopStep::AutoSleep) == auto_sleep_due(
                    SessionMode::Active,
                    idle,
                    old(self).spec_state().sleep_after(),
                )) && final(self).spec_state().mode() == (if r == LoopStep::AutoSleep {
                SessionMode::Idle
            } else {
                SessionMode::Active
            }),
            final(self).spec_state().speaking() == old(self).spec_state().speaking(),
            final(self).spec_state().language() == old(self).spec_state().language(),
            final(self).spec_state().shutdown() == old(self).spec_state().shutdown(),
            final(self).spec_state().sleep_after() == old(self).spec_state().sleep_after(),
            final(self).spec_state().last_active() == old(self).spec_state().last_active(),
            final(self).spec_config() == old(self).spec_config(),
    {
        let idle = self.state.idle_seconds();
        self.next_step_after(idle)
    }

    /// Speech was captured and is being transcribed: the mic is processing.
    pub fn begin_transcribing(&mut self)
        ensures
            final(self).spec_state().fields() == (
                MicState::Processing,
                old(self).spec_state().mode(),
                old(self).spec_state().speaking(),
                old(self).spec_state().language(),
                old(self).spec_state().shutdown(),
                old(self).spec_state().sleep_after(),
            ),
            final(self).spec_state().last_active() == old(self).spec_state().last_active(),
            final(self).spec_config() == old(self).spec_config(),
    {
        self.state.set_mic_state(MicState::Processing);
    }

    /// A transcript heard while idle: unless it is noise, a wake word in it
    /// activates the session. Returns whether to tell the brain the wake
    /// word was detected.
    pub fn on_wake_transcript(&mut self, is_noise: bool, wake_matched: bool) -> (r: bool)
        ensures
            r == (!is_noise && wake_matched),
            final(self).spec_state().fields() == (
                old(self).spec_state().mic(),
                if r {
                    SessionMode::Active
                } else {
                    old(self).spec_state().mode()
                },
                old(self).spec_state().speaking(),
                old(self).spec_state().language(),
                old(self).spec_state().shutdown(),
                old(self).spec_state().sleep_after(),
            ),
            !r ==> final(self).spec_state().last_active() == old(self).spec_state().last_active(),
            final(self).spec_config() == old(self).spec_config(),
    {
        if !is_noise && wake_matched {
            self.state.set_session_mode(SessionMode::Active);
            true
        } else {
            false
        }
    }

    /// A transcript heard while active: unless it is noise, it counts as
    /// activity and its language becomes the detected language; the mic
    /// listens again. Returns whether to send it to the brain.
    pub fn on_user_transcript(&mut self, is_noise: bool, language: String) -> (r: bool)
        ensures
            r == !is_noise,
            final(self).spec_state().fields() == (
                MicState::Listening,
                old(self).spec_state().mode(),
                old(self).spec_state().speaking(),
                if is_noise {
                    old(self).spec_state().language()
                } else {
                    language@
                },
                old(self).spec_state().shutdown(),
                old(self).spec_state().sleep_after(),
            ),
            is_noise ==> final(self).spec_state().last_active() == old(self).spec_state().last_active(),
            final(self).spec_config() == old(self).spec_config(),
    {
        if !is_noise {
            self.state.touch();
            self.state.set_detected_language(language);
        }
        self.state.set_mic_state(MicState::Listening);
        !is_noise
    }

    /// Acts on a message from the brain.
    ///
    /// Speak / SpeakInterruptible: the shell starts speaking (mic
    /// `Speaking`) and asks for the text to be spoken in the detected
    /// language. StopSpeaking: not speaking, mic listening, stop playback.
    /// SetMicState: the mic takes the given state. Configure: a language
    /// given becomes the detected language. Shutdown: shutdown is requested
    /// and the loop exits. Ping: answer pong. Disconnected: exit. Anything
    /// else is ignored.
    pub fn on_brain_command(&mut self, cmd: BrainCommand) -> (r: ShellAction)
        ensures
            final(self).spec_config() == old(self).spec_config(),
            final(self).spec_state().mode() == old(self).spec_state().mode(),
            final(self).spec_state().sleep_after() == old(self).spec_state().sleep_after(),
            final(self).spec_state().last_active() == old(self).spec_state().last_active(),
            (r is Exit) == (cmd is Shutdown || cmd is Disconnected),
            match cmd {
                BrainCommand::Speak(req) => (r matches ShellAction::Speak {
                    text,
                    language,
                    interruptible,
                } && text@ == req.text@ && language@ == old(self).spec_state().language()
                    && !interruptible) && final(self).spec_state().fields() == (
                    MicState::Speaking,
                    old(self).spec_state().mode(),
                    true,
                    old(self).spec_state().language(),
                    old(self).spec_state().shutdown(),
                    old(self).spec_state().sleep_after(),
                ),
                BrainCommand::SpeakInterruptible(req) => (r matches ShellAction::Speak {
                    text,
                    language,
                    interruptible,
                } && text@ == req.text@ && language@ == old(self).spec_state().language()
                    && interruptible) && final(self).spec_state().fields() == (
                    MicState::Speaking,
                    old(self).spec_state().mode(),
                    true,
                    old(self).spec_state().language(),
                    old(self).spec_state().shutdown(),
                    old(self).spec_state().sleep_after(),
                ),
                BrainCommand::StopSpeaking => r is StopPlayback && final(self).spec_state().fields()
                    == (
                    MicState::Listening,
                    old(self).spec_state().mode(),
                    false,
                    old(self).spec_state().language(),
                    old(self).spec_state().shutdown(),
                    old(self).spec_state().sleep_after(),
                ),
                BrainCommand::SetMicState(req) => r is Nothing && final(self).spec_state().fields()
                    == (
                    voice_mic_state(req.state),
                    old(self).spec_state().mode(),
                    old(self).spec_state().speaking(),
                    old(self).spec_state().language(),
                    old(self).spec_state().shutdown(),
                    old(self).spec_state().sleep_after(),
                ),
                BrainCommand::Configure(cfg) => r is Nothing && final(self).spec_state().fields()
                    == (
                    old(self).spec_state().mic(),
                    old(self).spec_state().mode(),
                    old(self).spec_state().speaking(),
                    match cfg.language {
                        Some(l) => l@,
                        None => old(self).spec_state().language(),
                    },
                    old(self).spec_state().shutdown(),
                    old(self).spec_state().sleep_after(),
                ),
                BrainCommand::Shutdown => final(self).spec_state().fields() == (
                    old(self).spec_state().mic(),
                    old(self).spec_state().mode(),
                    old(self).spec_state().speaking(),
                    old(self).spec_state().language(),
                    true,
                    old(self).spec_state().sleep_after(),
                ),
                BrainCommand::Ping => r is SendPong && final(self).spec_state().fields() == old(
                    self,
                ).spec_state().fields(),
                BrainCommand::Disconnected => final(self).spec_state().fields() == old(
                    self,
                ).spec_state().fields(),
                BrainCommand::Ignored => r is Nothing && final(self).spec_state().fields() == old(
                    self,
                ).spec_state().fields(),
            },
    {
        match cmd {
            BrainCommand::Speak(req) => {
                self.state.set_mic_state(MicState::Speaking);
                self.state.set_speaking(true);
                let language = self.state.detected_language();
                ShellAction::Speak { text: req.text, language, interruptible: false }
            },
            BrainCommand::SpeakInterruptible(req) => {
                self.state.set_mic_state(MicState::Speaking);
                self.state.set_speaking(true);
                let language = self.state.detected_language();
                ShellAction::Speak { text: req.text, language, interruptible: true }
            },
            BrainCommand::StopSpeaking => {
                self.state.set_speaking(false);
                self.state.set_mic_state(MicState::Listening);
                ShellAction::StopPlayback
            },
            BrainCommand::SetMicState(req) => {
                let new_state = mic_state_from_ipc(req.state);
                self.state.set_mic_state(new_state);
                ShellAction::Nothing
            },
            BrainCommand::Configure(cfg) => {
                if let Some(lang) = cfg.language {
                    self.state.set_detected_language(lang);
                }
                ShellAction::Nothing
            },
            BrainCommand::Shutdown => {
                self.state.request_shutdown();
                ShellAction::Exit
            },
            BrainCommand::Ping => ShellAction::SendPong,
            BrainCommand::Disconnected => ShellAction::Exit,
            BrainCommand::Ignored => ShellAction::Nothing,
        }
    }

    /// Speech output ended: not speaking, mic listening, and it counts as
    /// activity.
    pub fn finish_speaking(&mut self)
        ensures
            final(self).spec_state().fields() == (
                MicState::Listening,
                old(self).spec_state().mode(),
                false,
                old(self).spec_state().language(),
                old(self).spec_state().shutdown(),
                old(self).spec_state().sleep_after(),
            ),
            final(self).spec_config() == old(self).spec_config(),
    {
        self.state.set_speaking(false);
        self.state.set_mic_state(MicState::Listening);
        self.state.touch();
    }
}

} // verus!
