//! Text-to-speech: engine choice and the espeak-ng engine's settings.
//!
//! English goes to Piper (neural, fast); other languages to espeak-ng
//! (rule-based, multilingual); each falls back on the other.
use crate::text::str_eq;
use vstd::prelude::*;
use vstd::string::*;

verus! {

/// Piper's output sample rate (raw 16-bit PCM), in Hz.
pub const PIPER_SAMPLE_RATE: u32 = 22050;

/// espeak-ng's default output sample rate, in Hz.
pub const ESPEAK_SAMPLE_RATE: u32 = 22050;

/// espeak-ng's default speaking speed, in words per minute.
pub const ESPEAK_DEFAULT_SPEED: u32 = 175;

/// Languages that Piper serves first: `en`, `english`, or none given.
pub open spec fn prefers_piper(language: Seq<char>) -> bool {
    language == "en"@ || language == "english"@ || language.len() == 0
}

/// The first engine present of `first` then `second`.
pub open spec fn first_present<'a, E: ?Sized>(first: Option<&'a E>, second: Option<&'a E>) -> Option<&'a E> {
    match first {
        Some(e) => Some(e),
        None => second,
    }
}

/// Chooses the TTS engine for `language`: Piper for English, espeak-ng
/// otherwise, each falling back on the other; `None` when neither is
/// available.
pub fn select_engine<'a, E: ?Sized>(
    language: &str,
    piper: Option<&'a E>,
    espeak: Option<&'a E>,
) -> (r: Option<&'a E>)
    ensures
        prefers_piper(language@) ==> r == first_present(piper, espeak),
        !prefers_piper(language@) ==> r == first_present(espeak, piper),
        !(language@ == "en"@ || language@ == "english"@ || language@.len() == 0) && espeak is Some
            ==> r == espeak,
        (language@ == "en"@ || language@ == "english"@ || language@.len() == 0) && piper is Some
            ==> r == piper,
        r is None <==> (piper is None && espeak is None),
{
    if str_eq(language, "en") || str_eq(language, "english") || language.is_empty() {
        match piper {
            Some(e) => Some(e),
            None => espeak,
        }
    } else {
        match espeak {
            Some(e) => Some(e),
            None => piper,
        }
    }
}

/// Engine choice finds an engine whenever one is available.
pub proof fn law_select_finds_available<E: ?Sized>(
    language: Seq<char>,
    piper: Option<&E>,
    espeak: Option<&E>,
)
    ensures
        (piper is Some || espeak is Some) ==> first_present(piper, espeak) is Some
            && first_present(espeak, piper) is Some,
{
}

/// English (`en`, `english`, or no language given) is spoken by Piper when
/// it is available, and every other language by espeak-ng when it is
/// available; each engine stands in for the other only when that one is
/// missing.
pub proof fn law_language_routing<E: ?Sized>(language: Seq<char>, piper: Option<&E>, espeak: Option<&E>)
    ensures
        !(language == "en"@ || language == "english"@ || language.len() == 0) && espeak is Some
            ==> !prefers_piper(language) && first_present(espeak, piper) == espeak,
        (language == "en"@ || language == "english"@ || language.len() == 0) && piper is Some
            ==> prefers_piper(language) && first_present(piper, espeak) == piper,
        espeak is None ==> first_present(espeak, piper) == piper,
        piper is None ==> first_present(piper, espeak) == espeak,
{
}

/// The espeak-ng engine's settings: which binary, which voice, how fast.
///
/// It runs as `espeak-ng --stdout -v <voice> -s <speed> <text>` and writes a
/// WAV file, read with `crate::voice::wav::decode_wav`.
pub struct EspeakTts {
    binary_path: String,
    voice: String,
    speed: u32,
}

impl EspeakTts {
    pub closed spec fn spec_binary_path(&self) -> Seq<char> {
        self.binary_path@
    }

    pub closed spec fn spec_voice(&self) -> Seq<char> {
        self.voice@
    }

    pub closed spec fn spec_speed(&self) -> u32 {
        self.speed
    }

    /// The engine at `binary_path` speaking with `voice` (e.g. `en`, `hi`,
    /// `ne`) at the default speed.
    pub fn new(binary_path: String, voice: &str) -> (r: Self)
        ensures
            r.spec_binary_path() == binary_path@,
            r.spec_voice() == voice@,
            r.spec_speed() == ESPEAK_DEFAULT_SPEED,
    {
        EspeakTts { binary_path, voice: String::from_str(voice), speed: ESPEAK_DEFAULT_SPEED }
    }

    pub fn set_voice(&mut self, voice: &str)
        ensures
            final(self).spec_voice() == voice@,
            final(self).spec_binary_path() == old(self).spec_binary_path(),
            final(self).spec_speed() == old(self).spec_speed(),
    {
        self.voice = String::from_str(voice);
    }

    /// Sets the speaking speed in words per minute.
    pub fn set_speed(&mut self, wpm: u32)
        ensures
            final(self).spec_speed() == wpm,
            final(self).spec_binary_path() == old(self).spec_binary_path(),
            final(self).spec_voice() == old(self).spec_voice(),
    {
        self.speed = wpm;
    }

    pub fn binary_path(&self) -> (r: &str)
        ensures
            r@ == self.spec_binary_path(),
    {
        self.binary_path.as_str()
    }

    pub fn voice(&self) -> (r: &str)
        ensures
            r@ == self.spec_voice(),
    {
        self.voice.as_str()
    }

    pub fn speed(&self) -> (r: u32)
        ensures
            r == self.spec_speed(),
    {
        self.speed
    }
}

} // verus!
