//! Speech-to-text support: the transcript noise filter and the Whisper
//! model files.
use crate::text::{chars_of, is_ascii_punctuation, is_ascii_punctuation_char, is_white_space, is_white_space_char, lowercase, str_eq, to_lowercase, trim, trim_spec};
use vstd::prelude::*;
use vstd::string::*;

verus! {

/// Transcripts Whisper is known to hallucinate on silence or noise
/// (compared in lowercase).
pub open spec fn is_hallucination(s: Seq<char>) -> bool {
    ||| s == "thank you."@
    ||| s == "thanks for watching."@
    ||| s == "thank you for watching."@
    ||| s == "thanks for watching!"@
    ||| s == "the end."@
    ||| s == "you"@
    ||| s == "bye."@
    ||| s == "bye!"@
    ||| s == "bye bye."@
    ||| s == "..."@
    ||| s == "so"@
    ||| s == "i'm sorry."@
}

/// The noise rule on a trimmed transcript `t` and its lowercase form
/// `lowered`: fewer than two characters, a known hallucination, or ASCII
/// punctuation and white space only.
pub open spec fn noise_verdict(t: Seq<char>, lowered: Seq<char>) -> bool {
    ||| t.len() < 2
    ||| is_hallucination(lowered)
    ||| forall|i: int| 0 <= i < t.len() ==> is_ascii_punctuation(#[trigger] t[i]) || is_white_space(t[i])
}

/// A transcript text is noise when the noise rule holds of it trimmed and
/// lowercased.
pub open spec fn is_noise_text_spec(text: Seq<char>) -> bool {
    noise_verdict(trim_spec(text), lowercase(trim_spec(text)))
}

/// The noise rule on a trimmed transcript and its lowercase form.
pub fn is_noise_trimmed(trimmed: &str, lowered: &str) -> (r: bool)
    ensures
        r == noise_verdict(trimmed@, lowered@),
{
    if trimmed.unicode_len() < 2 {
        return true;
    }
    let l = lowered;
    if str_eq(l, "thank you.") || str_eq(l, "thanks for watching.") || str_eq(
        l,
        "thank you for watching.",
    ) || str_eq(l, "thanks for watching!") || str_eq(l, "the end.") || str_eq(l, "you")
        || str_eq(l, "bye.") || str_eq(l, "bye!") || str_eq(l, "bye bye.") || str_eq(l, "...")
        || str_eq(l, "so") || str_eq(l, "i'm sorry.") {
        return true;
    }
    let cs = chars_of(trimmed);
    let mut i: usize = 0;
    while i < cs.len()
        invariant
            cs@ == trimmed@,
            !is_hallucination(lowered@),
            trimmed@.len() >= 2,
            i <= cs@.len(),
            forall|k: int| 0 <= k < i ==> is_ascii_punctuation(#[trigger] cs@[k]) || is_white_space(
                cs@[k],
            ),
        decreases cs@.len() - i,
    {
        let c = cs[i];
        if !(is_ascii_punctuation_char(c) || is_white_space_char(c)) {
            assert(!(is_ascii_punctuation(trimmed@[i as int]) || is_white_space(trimmed@[i as int])));
            return false;
        }
        i = i + 1;
    }
    true
}

/// Whether a transcript's text is likely noise rather than speech (the
/// text part of the noise filter; a transcript is also noise when its
/// confidence is below 0.1).
pub fn is_noise_text(text: &str) -> (r: bool)
    ensures
        r == is_noise_text_spec(text@),
{
    let trimmed = trim(text);
    let lower = to_lowercase(trimmed);
    is_noise_trimmed(trimmed, lower.as_str())
}

/// Whisper model sizes.
#[derive(Debug, Clone, Copy, PartialEq, Eq, Structural)]
pub enum WhisperModel {
    /// About 75 MB of RAM; fastest, least accurate.
    Tiny,
    /// About 150 MB; a good balance for small boards.
    Base,
    /// About 500 MB; good accuracy.
    Small,
    /// About 1.5 GB; high accuracy.
    Medium,
}

/// File name of a model.
pub open spec fn model_file_name(m: WhisperModel) -> Seq<char> {
    match m {
        WhisperModel::Tiny => "ggml-tiny.bin"@,
        WhisperModel::Base => "ggml-base.bin"@,
        WhisperModel::Small => "ggml-small.bin"@,
        WhisperModel::Medium => "ggml-medium.bin"@,
    }
}

impl WhisperModel {
    /// The model's ggml file name.
    pub fn filename(&self) -> (r: &'static str)
        ensures
            r@ == model_file_name(*self),
    {
        match self {
            WhisperModel::Tiny => "ggml-tiny.bin",
            WhisperModel::Base => "ggml-base.bin",
            WhisperModel::Small => "ggml-small.bin",
            WhisperModel::Medium => "ggml-medium.bin",
        }
    }
}

} // verus!
