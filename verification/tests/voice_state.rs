//! Voice shell state and main-loop decisions.
use gclaw::ipc::protocol::{ConfigureVoice, MicState as IpcMicState, SetMicStateRequest, SpeakRequest};
use gclaw::voice::shell::{BrainCommand, LoopStep, ShellAction, VoiceShell, VoiceShellConfig};
use gclaw::voice::state::{MicState, SessionMode, VoiceState};

#[test]
fn state_initial_values() {
    let state = VoiceState::new();
    assert_eq!(state.mic_state(), MicState::Idle);
    assert_eq!(state.session_mode(), SessionMode::Idle);
    assert!(!state.is_speaking());
    assert!(!state.is_shutdown_requested());
    assert_eq!(state.detected_language(), "en");
}

#[test]
fn state_transitions() {
    let mut state = VoiceState::new();
    state.set_mic_state(MicState::Listening);
    assert_eq!(state.mic_state(), MicState::Listening);

    state.set_session_mode(SessionMode::Active);
    assert_eq!(state.session_mode(), SessionMode::Active);

    state.set_speaking(true);
    assert!(state.is_speaking());
    assert_eq!(state.mic_state(), MicState::Speaking);
}

#[test]
fn state_auto_sleep() {
    let mut state = VoiceState::new();
    state.set_session_mode(SessionMode::Active);
    // Just activated — shouldn't auto-sleep yet.
    assert!(!state.should_auto_sleep());

    // Idle mode should never trigger auto-sleep.
    state.set_session_mode(SessionMode::Idle);
    assert!(!state.should_auto_sleep());
}

#[test]
fn state_shutdown() {
    let mut state = VoiceState::new();
    assert!(!state.is_shutdown_requested());
    state.request_shutdown();
    assert!(state.is_shutdown_requested());
}

#[test]
fn state_language() {
    let mut state = VoiceState::new();
    state.set_detected_language("hi".into());
    assert_eq!(state.detected_language(), "hi");
    state.set_detected_language("ne".into());
    assert_eq!(state.detected_language(), "ne");
}

#[test]
fn state_touch_resets_idle_timer() {
    let mut state = VoiceState::new();
    state.set_session_mode(SessionMode::Active);
    state.touch();
    assert!(state.idle_seconds() < 2);
}

#[test]
fn mic_state_display() {
    assert_eq!(MicState::Idle.display_name(), "IDLE");
    assert_eq!(MicState::Listening.display_name(), "LISTENING");
    assert_eq!(MicState::Processing.display_name(), "PROCESSING");
    assert_eq!(MicState::Speaking.display_name(), "SPEAKING");
}

#[test]
fn ipc_mic_state_display() {
    assert_eq!(IpcMicState::Idle.display_name(), "IDLE");
    assert_eq!(IpcMicState::Speaking.display_name(), "SPEAKING");
}

#[test]
fn state_default_matches_new() {
    let state = VoiceState::default();
    assert_eq!(state.mic_state(), MicState::Idle);
    assert_eq!(state.auto_sleep_secs, 90);
}

#[test]
fn set_speaking_false_keeps_mic_state() {
    let mut state = VoiceState::new();
    state.set_mic_state(MicState::Processing);
    state.set_speaking(false);
    assert_eq!(state.mic_state(), MicState::Processing);
    assert!(!state.is_speaking());
}

#[test]
fn shell_config_defaults() {
    let c = VoiceShellConfig::default();
    assert_eq!(c.vad_model_path, "models/silero_vad.onnx");
    assert_eq!(c.whisper_model_path, "models/ggml-base.bin");
    assert!(c.piper_binary_path.is_none());
    assert!(c.piper_model_path.is_none());
    assert_eq!(c.ai_name, "G");
    assert!(c.language.is_none());
    assert_eq!(c.ipc_port, 19820);
}

#[test]
fn shell_idle_loop_listens_for_wake_word() {
    let mut shell = VoiceShell::new(VoiceShellConfig::default());
    assert_eq!(shell.next_step(), LoopStep::ListenForWake);
    assert_eq!(shell.state().mic_state(), MicState::Idle);
    shell.begin_transcribing();
    assert_eq!(shell.state().mic_state(), MicState::Processing);
    // Noise never wakes the shell, even when it matches.
    assert!(!shell.on_wake_transcript(true, true));
    assert_eq!(shell.state().session_mode(), SessionMode::Idle);
    assert!(!shell.on_wake_transcript(false, false));
    assert!(shell.on_wake_transcript(false, true));
    assert_eq!(shell.state().session_mode(), SessionMode::Active);
    assert_eq!(shell.next_step(), LoopStep::ServeActive);
    assert_eq!(shell.state().mic_state(), MicState::Listening);
}

#[test]
fn shell_user_transcript_updates_language() {
    let mut shell = VoiceShell::new(VoiceShellConfig::default());
    assert!(shell.on_user_transcript(false, "hi".into()));
    assert_eq!(shell.state().detected_language(), "hi");
    assert!(!shell.on_user_transcript(true, "fr".into()));
    assert_eq!(shell.state().detected_language(), "hi");
    assert_eq!(shell.state().mic_state(), MicState::Listening);
}

#[test]
fn shell_speak_commands() {
    let mut shell = VoiceShell::new(VoiceShellConfig::default());
    let action = shell.on_brain_command(BrainCommand::Speak(SpeakRequest { text: "Hi there!".into() }));
    match action {
        ShellAction::Speak { text, language, interruptible } => {
            assert_eq!(text, "Hi there!");
            assert_eq!(language, "en");
            assert!(!interruptible);
        }
        other => panic!("unexpected action {other:?}"),
    }
    assert!(shell.state().is_speaking());
    assert_eq!(shell.state().mic_state(), MicState::Speaking);
    shell.finish_speaking();
    assert!(!shell.state().is_speaking());
    assert_eq!(shell.state().mic_state(), MicState::Listening);

    let action = shell.on_brain_command(BrainCommand::SpeakInterruptible(SpeakRequest {
        text: "Long response...".into(),
    }));
    assert!(matches!(action, ShellAction::Speak { interruptible: true, .. }));
    let action = shell.on_brain_command(BrainCommand::StopSpeaking);
    assert!(matches!(action, ShellAction::StopPlayback));
    assert!(!shell.state().is_speaking());
}

#[test]
fn shell_other_commands() {
    let mut shell = VoiceShell::new(VoiceShellConfig::default());
    let a = shell.on_brain_command(BrainCommand::SetMicState(SetMicStateRequest {
        state: IpcMicState::Processing,
    }));
    assert!(matches!(a, ShellAction::Nothing));
    assert_eq!(shell.state().mic_state(), MicState::Processing);

    let a = shell.on_brain_command(BrainCommand::Configure(ConfigureVoice {
        stt_engine: Some("whisper".into()),
        language: Some("ne".into()),
        ai_name: Some("G".into()),
    }));
    assert!(matches!(a, ShellAction::Nothing));
    assert_eq!(shell.state().detected_language(), "ne");

    assert!(matches!(shell.on_brain_command(BrainCommand::Ping), ShellAction::SendPong));
    assert!(matches!(shell.on_brain_command(BrainCommand::Ignored), ShellAction::Nothing));
    assert!(matches!(shell.on_brain_command(BrainCommand::Disconnected), ShellAction::Exit));
    assert!(!shell.state().is_shutdown_requested());

    assert!(matches!(shell.on_brain_command(BrainCommand::Shutdown), ShellAction::Exit));
    assert!(shell.state().is_shutdown_requested());
    assert_eq!(shell.next_step(), LoopStep::Exit);
}

#[test]
fn sleep_due_only_when_active_past_the_limit() {
    let mut state = VoiceState::new();
    assert!(!state.sleep_due_after(1000));
    state.set_session_mode(SessionMode::Active);
    assert!(!state.sleep_due_after(90));
    assert!(state.sleep_due_after(91));
    state.auto_sleep_secs = 0;
    assert!(state.sleep_due_after(1));
    assert!(!state.sleep_due_after(0));
}

#[test]
fn shutdown_stays_requested() {
    let mut state = VoiceState::new();
    state.set_mic_state(MicState::Speaking);
    state.set_session_mode(SessionMode::Active);
    assert!(!state.is_shutdown_requested());
    state.request_shutdown();
    state.set_mic_state(MicState::Idle);
    state.set_session_mode(SessionMode::Idle);
    state.set_speaking(true);
    state.touch();
    state.set_detected_language("hi".to_string());
    assert!(state.is_shutdown_requested());
}

#[test]
fn shell_starts_with_ninety_second_auto_sleep() {
    let shell = VoiceShell::new(VoiceShellConfig::default());
    assert_eq!(shell.state().auto_sleep_secs, 90);
}

#[test]
fn shell_auto_sleeps_after_ninety_idle_seconds() {
    let mut shell = VoiceShell::new(VoiceShellConfig::default());
    // Idle sessions never auto-sleep.
    assert_eq!(shell.next_step_after(1000), LoopStep::ListenForWake);
    assert!(shell.on_wake_transcript(false, true));
    assert_eq!(shell.next_step_after(90), LoopStep::ServeActive);
    assert_eq!(shell.state().session_mode(), SessionMode::Active);
    assert_eq!(shell.next_step_after(91), LoopStep::AutoSleep);
    assert_eq!(shell.state().session_mode(), SessionMode::Idle);
    assert_eq!(shell.state().mic_state(), MicState::Listening);
    assert_eq!(shell.next_step_after(0), LoopStep::ListenForWake);
}
