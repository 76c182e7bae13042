//! The voice shell's state: mic state, session mode, speaking flag, last
//! activity, detected language, shutdown request.
use std::time::{Duration, Instant};
use vstd::prelude::*;
use vstd::string::*;

verus! {

/// `std::time::Instant`, carried opaquely.
#[verifier::external_type_specification]
#[verifier::external_body]
pub struct ExInstant(Instant);

/// Calls `Instant::now`. The time is the machine's: nothing is stated.
#[verifier::external_body]
fn now() -> Instant {
    Instant::now()
}

/// Calls `Instant::elapsed`: the time since `since`. The time is the
/// machine's: nothing is stated.
#[verifier::external_body]
fn elapsed(since: &Instant) -> Duration {
    since.elapsed()
}

/// Calls `Duration::as_secs`: the whole seconds of `d`. A `Duration` is
/// carried opaquely, so nothing is stated.
#[verifier::external_body]
fn whole_secs(d: &Duration) -> u64 {
    d.as_secs()
}

/// Microphone state machine.
#[derive(Debug, Clone, Copy, PartialEq, Eq, Structural)]
pub enum MicState {
    /// Waiting for wake word or input.
    Idle,
    /// Actively capturing user speech.
    Listening,
    /// Running STT on captured audio.
    Processing,
    /// Playing TTS output.
    Speaking,
}

/// Display form of a mic state.
pub open spec fn mic_state_label(s: MicState) -> Seq<char> {
    match s {
        MicState::Idle => "IDLE"@,
        MicState::Listening => "LISTENING"@,
        MicState::Processing => "PROCESSING"@,
        MicState::Speaking => "SPEAKING"@,
    }
}

impl MicState {
    /// The state's display form: `IDLE`, `LISTENING`, `PROCESSING` or `SPEAKING`.
    pub fn display_name(&self) -> (r: String)
        ensures
            r@ == mic_state_label(*self),
    {
        match self {
            MicState::Idle => String::from_str("IDLE"),
            MicState::Listening => String::from_str("LISTENING"),
            MicState::Processing => String::from_str("PROCESSING"),
            MicState::Speaking => String::from_str("SPEAKING"),
        }
    }
}

/// Session mode: waiting for the wake word, or listening for commands.
#[derive(Debug, Clone, Copy, PartialEq, Eq, Structural)]
pub enum SessionMode {
    Idle,
    Active,
}

/// Seconds of inactivity after which an active session goes back to idle.
pub const AUTO_SLEEP_SECS: u64 = 90;

/// Whether a session in `mode`, idle for `idle_secs`, is due to go back to
/// sleep: only an active session, and only after more than `limit_secs`.
pub open spec fn auto_sleep_due(mode: SessionMode, idle_secs: u64, limit_secs: u64) -> bool {
    mode == SessionMode::Active && idle_secs > limit_secs
}

/// The changes the voice shell makes to its state, one per mutating method
/// of `VoiceState`.
pub enum StateOp {
    /// `set_mic_state`
    SetMic(MicState),
    /// `set_session_mode`
    SetMode(SessionMode),
    /// `set_speaking`
    SetSpeaking(bool),
    /// `touch`
    Touch,
    /// `set_detected_language`
    SetLanguage(String),
    /// `request_shutdown`
    RequestShutdown,
}

/// What an operation does to the state's fields (mic, mode, speaking,
/// language, shutdown, auto-sleep limit).
pub open spec fn state_step(
    f: (MicState, SessionMode, bool, Seq<char>, bool, u64),
    op: StateOp,
) -> (MicState, SessionMode, bool, Seq<char>, bool, u64) {
    match op {
        StateOp::SetMic(m) => (m, f.1, f.2, f.3, f.4, f.5),
        StateOp::SetMode(m) => (f.0, m, f.2, f.3, f.4, f.5),
        StateOp::SetSpeaking(b) => (
            if b {
                MicState::Speaking
            } else {
                f.0
            },
            f.1,
            b,
            f.3,
            f.4,
            f.5,
        ),
        StateOp::Touch => f,
        StateOp::SetLanguage(l) => (f.0, f.1, f.2, l@, f.4, f.5),
        StateOp::RequestShutdown => (f.0, f.1, f.2, f.3, true, f.5),
    }
}

/// The fields after the operations `ops`, in order.
pub open spec fn run_ops(
    f: (MicState, SessionMode, bool, Seq<char>, bool, u64),
    ops: Seq<StateOp>,
) -> (MicState, SessionMode, bool, Seq<char>, bool, u64)
    decreases ops.len(),
{
    if ops.len() == 0 {
        f
    } else {
        run_ops(state_step(f, ops[0]), ops.drop_first())
    }
}

/// Shutdown, once requested, stays requested: after any sequence of
/// operations the flag is set exactly when it was set before or one of them
/// requested shutdown.
pub proof fn law_shutdown_sticky(
    f: (MicState, SessionMode, bool, Seq<char>, bool, u64),
    ops: Seq<StateOp>,
)
    ensures
        run_ops(f, ops).4 == (f.4 || exists|i: int| 0 <= i < ops.len() && #[trigger] ops[i] is RequestShutdown),
    decreases ops.len(),
{
    if ops.len() > 0 {
        let rest = ops.drop_first();
        law_shutdown_sticky(state_step(f, ops[0]), rest);
        if exists|i: int| 0 <= i < rest.len() && #[trigger] rest[i] is RequestShutdown {
            let i = choose|i: int| 0 <= i < rest.len() && #[trigger] rest[i] is RequestShutdown;
            assert(ops[i + 1] is RequestShutdown);
        }
        if exists|i: int| 0 <= i < ops.len() && #[trigger] ops[i] is RequestShutdown {
            let i = choose|i: int| 0 <= i < ops.len() && #[trigger] ops[i] is RequestShutdown;
            if i > 0 {
                assert(rest[i - 1] is RequestShutdown);
            }
        }
    }
}

/// The voice shell's state.
pub struct VoiceState {
    mic_state: MicState,
    session_mode: SessionMode,
    is_speaking: bool,
    last_activity: Instant,
    detected_language: String,
    shutdown_requested: bool,
    /// Auto-sleep timeout in seconds.
    pub auto_sleep_secs: u64,
}

impl VoiceState {
    pub closed spec fn mic(&self) -> MicState {
        self.mic_state
    }

    pub closed spec fn mode(&self) -> SessionMode {
        self.session_mode
    }

    pub closed spec fn speaking(&self) -> bool {
        self.is_speaking
    }

    pub closed spec fn language(&self) -> Seq<char> {
        self.detected_language@
    }

    pub closed spec fn shutdown(&self) -> bool {
        self.shutdown_requested
    }

    pub closed spec fn sleep_after(&self) -> u64 {
        self.auto_sleep_secs
    }

    /// When the last activity was recorded.
    pub closed spec fn last_active(&self) -> Instant {
        self.last_activity
    }

    /// The state's fields other than the last-activity time.
    pub open spec fn fields(&self) -> (MicState, SessionMode, bool, Seq<char>, bool, u64) {
        (
            self.mic(),
            self.mode(),
            self.speaking(),
            self.language(),
            self.shutdown(),
            self.sleep_after(),
        )
    }

    /// Idle, not speaking, language `en`, no shutdown, 90 s auto-sleep.
    pub fn new() -> (r: Self)
        ensures
            r.mic() == MicState::Idle,
            r.mode() == SessionMode::Idle,
            !r.speaking(),
            r.language() == "en"@,
            !r.shutdown(),
            r.sleep_after() == AUTO_SLEEP_SECS,
    {
        VoiceState {
            mic_state: MicState::Idle,
            session_mode: SessionMode::Idle,
            is_speaking: false,
            last_activity: now(),
            detected_language: String::from_str("en"),
            shutdown_requested: false,
            auto_sleep_secs: AUTO_SLEEP_SECS,
        }
    }

    pub fn mic_state(&self) -> (r: MicState)
        ensures
            r == self.mic(),
    {
        self.mic_state
    }

    pub fn set_mic_state(&mut self, state: MicState)
        ensures
            final(self).fields() == state_step(old(self).fields(), StateOp::SetMic(state)),
            final(self).last_active() == old(self).last_active(),
    {
        self.mic_state = state;
    }

    pub fn session_mode(&self) -> (r: SessionMode)
        ensures
            r == self.mode(),
    {
        self.session_mode
    }

    /// Sets the session mode; becoming active counts as activity (the
    /// activity time is then the clock's), going idle keeps the last
    /// activity time.
    pub fn set_session_mode(&mut self, mode: SessionMode)
        ensures
            final(self).fields() == state_step(old(self).fields(), StateOp::SetMode(mode)),
            mode == SessionMode::Idle ==> final(self).last_active() == old(self).last_active(),
    {
        self.session_mode = mode;
        if mode == SessionMode::Active {
            self.touch();
        }
    }

    pub fn is_speaking(&self) -> (r: bool)
        ensures
            r == self.speaking(),
    {
        self.is_speaking
    }

    /// Sets the speaking flag; starting to speak also sets the mic state to
    /// `Speaking`.
    pub fn set_speaking(&mut self, speaking: bool)
        ensures
            final(self).fields() == state_step(old(self).fields(), StateOp::SetSpeaking(speaking)),
            final(self).last_active() == old(self).last_active(),
    {
        self.is_speaking = speaking;
        if speaking {
            self.set_mic_state(MicState::Speaking);
        }
    }

    /// Records activity now (any user interaction); the time recorded is
    /// the clock's.
    pub fn touch(&mut self)
        ensures
            final(self).fields() == state_step(old(self).fields(), StateOp::Touch),
    {
        self.last_activity = now();
    }

    /// Seconds since the last activity, as the clock tells.
    pub fn idle_seconds(&self) -> u64 {
        whole_secs(&elapsed(&self.last_activity))
    }

    /// Whether the session, idle for `idle_secs`, is due to go back to idle:
    /// only when active and idle for more than `auto_sleep_secs`.
    pub fn sleep_due_after(&self, idle_secs: u64) -> (r: bool)
        ensures
            r == auto_sleep_due(self.mode(), idle_secs, self.sleep_after()),
    {
        self.session_mode == SessionMode::Active && idle_secs > self.auto_sleep_secs
    }

    /// Whether the session should go back to idle now: `sleep_due_after`
    /// with the idle time the clock tells.
    pub fn should_auto_sleep(&self) -> (r: bool)
        ensures
            exists|idle: u64| r == auto_sleep_due(self.mode(), idle, self.sleep_after()),
            self.mode() == SessionMode::Idle ==> !r,
    {
        let idle = self.idle_seconds();
        self.sleep_due_after(idle)
    }

    pub fn detected_language(&self) -> (r: String)
        ensures
            r@ == self.language(),
    {
        self.detected_language.clone()
    }

    pub fn set_detected_language(&mut self, lang: String)
        ensures
            final(self).fields() == state_step(old(self).fields(), StateOp::SetLanguage(lang)),
            final(self).last_active() == old(self).last_active(),
    {
        self.detected_language = lang;
    }

    pub fn request_shutdown(&mut self)
        ensures
            final(self).fields() == state_step(old(self).fields(), StateOp::RequestShutdown),
            final(self).last_active() == old(self).last_active(),
    {
        self.shutdown_requested = true;
    }

    pub fn is_shutdown_requested(&self) -> (r: bool)
        ensures
            r == self.shutdown(),
    {
        self.shutdown_requested
    }
}

impl Default for VoiceState {
    fn default() -> (r: Self)
        ensures
            r.mic() == MicState::Idle,
            r.mode() == SessionMode::Idle,
            !r.speaking(),
            r.language() == "en"@,
            !r.shutdown(),
            r.sleep_after() == AUTO_SLEEP_SECS,
    {
        Self::new()
    }
}

} // verus!
