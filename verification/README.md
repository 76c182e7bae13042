# gclaw

The verified core of G-Claw's voice shell, written in Verus: the IPC wire
framing, configuration secrets (Fernet) and validation, and the voice
pipeline's state machines and decisions. Verus proves every executable
function in `src/` against its contract. A few have no `ensures`, because
nothing holds of every outcome: the barge-in stop switch
(`BargeInController::new`, `arm`, `stop`, `is_stopped`), an atomic flag
shared between threads, and `VoiceState::idle_seconds`, which reads the
clock.

## Layout

- `src/ipc/`: length-prefixed framing (`codec`), the socket-free frame
  reader (`transport`), the protocol records (`protocol`), and the `bytes`
  buffer wrappers (`buffer`).
- `src/config/`: cryptographic primitives behind trusted wrappers
  (`crypto`), Fernet tokens and the machine key (`fernet`), the config
  record, decryption of its keys and validation (`settings`).
- `src/voice/`: the capture ring buffer (`audio`), speech segmentation
  (`vad`), barge-in (`bargein`), the shell state (`state`), the transcript
  noise filter (`stt`), WAV/PCM decoding (`wav`), TTS engine choice
  (`tts`), wake phrases (`wake`), errors (`error`), and the main loop's
  decisions (`shell`).
- `src/text.rs`: character helpers (trimming, white space, punctuation,
  substring search).
- `tests/`: executable tests of the library.
- `app/`: the program around the library: audio devices (cpal), the neural
  VAD (ONNX Runtime), Whisper, TTS processes, sockets, the config file and
  serde forms of the messages.

## Trusted items

Calls into outside crates and a few std functions stand behind
`#[verifier::external_body]` wrappers whose contracts are believed: see
`src/config/crypto.rs`, `src/ipc/buffer.rs`, the clock in
`src/voice/state.rs`, `to_lowercase` in `src/text.rs`, and `share_switch`
in `src/voice/bargein.rs`.
