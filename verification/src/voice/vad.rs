//! Speech segmentation on top of a per-frame speech detector.
//!
//! The detector (a neural VAD) says of each 512-sample frame whether it is
//! speech. The tracker turns that stream into utterances:
//!
//! - waiting, a speech frame starts an utterance;
//! - in an utterance, speech frames extend it and reset the silence count;
//! - `MAX_SILENCE_FRAMES` silent frames in a row end it; so does reaching
//!   `MAX_SPEECH_FRAMES` (speech frames plus the current silent run), the
//!   safety cap on an utterance, checked on every frame; an utterance of
//!   fewer than `MIN_SPEECH_FRAMES` speech frames is discarded as noise.
use vstd::prelude::*;

verus! {

/// Minimum speech frames for an utterance to count (5 frames = 160 ms).
pub const MIN_SPEECH_FRAMES: u32 = 5;

/// Silent frames that end an utterance (15 frames = 480 ms).
pub const MAX_SILENCE_FRAMES: u32 = 15;

/// Safety cap on an utterance's length in frames (60 s).
pub const MAX_SPEECH_FRAMES: u32 = 60 * 1000 / 32;

/// Where the tracker stands.
#[derive(Debug, Clone, Copy, PartialEq, Eq, Structural)]
pub enum VadPhase {
    /// Waiting for speech.
    WaitingForSpeech,
    /// In an utterance that started at stream position `start_sample`.
    InSpeech { speech_frames: u32, silence_frames: u32, start_sample: u64 },
}

/// A complete utterance.
#[derive(Debug, Clone)]
pub struct SpeechSegment<T> {
    /// The utterance's samples.
    pub audio: Vec<T>,
    /// Stream position (in samples) at which the utterance started.
    pub start_sample: u64,
}

impl<T> SpeechSegment<T> {
    /// A segment of `audio` that started at `start_sample`.
    pub fn new(audio: Vec<T>, start_sample: u64) -> (r: Self)
        ensures
            r.audio@ == audio@,
            r.start_sample == start_sample,
    {
        SpeechSegment { audio, start_sample }
    }
}

/// The tracker's verdict on one frame.
#[derive(Debug, Clone)]
pub enum VadDecision<T> {
    /// No speech (also: a too-short utterance was discarded).
    Silence,
    /// An utterance just started.
    SpeechStart,
    /// The utterance goes on.
    SpeechContinue,
    /// The utterance ended; here it is. The detector's own state should be
    /// reset before the next utterance.
    SpeechEnd(SpeechSegment<T>),
}

/// What one frame does to the tracker.
pub enum VadEvent {
    Silence,
    Start,
    Continue,
    End,
    Discard,
}

/// The tracker's transition on a frame: the next phase and the event.
pub open spec fn vad_step(phase: VadPhase, is_speech: bool, position: u64) -> (VadPhase, VadEvent) {
    match phase {
        VadPhase::WaitingForSpeech => if is_speech {
            (
                VadPhase::InSpeech { speech_frames: 1, silence_frames: 0, start_sample: position },
                VadEvent::Start,
            )
        } else {
            (VadPhase::WaitingForSpeech, VadEvent::Silence)
        },
        VadPhase::InSpeech { speech_frames, silence_frames, start_sample } => if is_speech {
            if speech_frames + 1 >= MAX_SPEECH_FRAMES {
                (VadPhase::WaitingForSpeech, VadEvent::End)
            } else {
                (
                    VadPhase::InSpeech {
                        speech_frames: (speech_frames + 1) as u32,
                        silence_frames: 0,
                        start_sample,
                    },
                    VadEvent::Continue,
                )
            }
        } else {
            let silence = silence_frames + 1;
            if silence >= MAX_SILENCE_FRAMES || speech_frames + silence >= MAX_SPEECH_FRAMES {
                if speech_frames >= MIN_SPEECH_FRAMES {
                    (VadPhase::WaitingForSpeech, VadEvent::End)
                } else {
                    (VadPhase::WaitingForSpeech, VadEvent::Discard)
                }
            } else {
                (
                    VadPhase::InSpeech {
                        speech_frames,
                        silence_frames: silence as u32,
                        start_sample,
                    },
                    VadEvent::Continue,
                )
            }
        },
    }
}

/// The counters of an utterance in progress stay below the caps: fewer than
/// `MAX_SPEECH_FRAMES` frames counted, fewer than `MAX_SILENCE_FRAMES`
/// silent ones in a row (reaching either ends the utterance).
pub open spec fn counters_in_range(phase: VadPhase) -> bool {
    match phase {
        VadPhase::WaitingForSpeech => true,
        VadPhase::InSpeech { speech_frames, silence_frames, .. } => speech_frames + silence_frames
            < MAX_SPEECH_FRAMES && silence_frames < MAX_SILENCE_FRAMES,
    }
}

/// Turns per-frame speech verdicts into utterances.
pub struct SpeechTracker {
    state: VadPhase,
}

impl SpeechTracker {
    /// The tracker's counters stay within range.
    #[verifier::type_invariant]
    spec fn inv(self) -> bool {
        counters_in_range(self.state)
    }

    /// The tracker's phase.
    pub closed spec fn phase(&self) -> VadPhase {
        self.state
    }

    /// A tracker waiting for speech.
    pub fn new() -> (r: Self)
        ensures
            r.phase() == VadPhase::WaitingForSpeech,
    {
        SpeechTracker { state: VadPhase::WaitingForSpeech }
    }

    /// Back to waiting for speech.
    pub fn reset(&mut self)
        ensures
            final(self).phase() == VadPhase::WaitingForSpeech,
    {
        self.state = VadPhase::WaitingForSpeech;
    }

    /// The tracker is in an utterance.
    pub fn is_in_speech(&self) -> (r: bool)
        ensures
            r == (self.phase() is InSpeech),
    {
        match self.state {
            VadPhase::InSpeech { .. } => true,
            VadPhase::WaitingForSpeech => false,
        }
    }

    /// Feeds one frame, `is_speech` being the detector's verdict on it and
    /// `stream_position` the stream's sample count at the frame.
    ///
    /// `accumulated` holds the utterance's samples: a start replaces it with
    /// the frame, a continuation appends the frame, an end hands it out (with
    /// the frame) and leaves it empty, a discard empties it.
    pub fn process_frame<T: Copy>(
        &mut self,
        is_speech: bool,
        frame: &[T],
        accumulated: &mut Vec<T>,
        stream_position: u64,
    ) -> (r: VadDecision<T>)
        ensures
            counters_in_range(final(self).phase()),
            final(self).phase() == vad_step(old(self).phase(), is_speech, stream_position).0,
            match vad_step(old(self).phase(), is_speech, stream_position).1 {
                VadEvent::Silence => r is Silence && final(accumulated)@ == old(accumulated)@,
                VadEvent::Start => r is SpeechStart && final(accumulated)@ == frame@,
                VadEvent::Continue => r is SpeechContinue && final(accumulated)@
                    == old(accumulated)@ + frame@,
                VadEvent::End => (r matches VadDecision::SpeechEnd(seg) && (seg.audio@
                    == old(accumulated)@ + frame@ && seg.start_sample
                    == old(self).phase()->start_sample)) && final(accumulated)@
                    == Seq::<T>::empty(),
                VadEvent::Discard => r is Silence && final(accumulated)@ == Seq::<T>::empty(),
            },
    {
        proof {
            use_type_invariant(&*self);
        }
        match self.state {
            VadPhase::WaitingForSpeech => {
                if is_speech {
                    self.state = VadPhase::InSpeech {
                        speech_frames: 1,
                        silence_frames: 0,
                        start_sample: stream_position,
                    };
                    accumulated.clear();
                    append_frame(accumulated, frame);
                    VadDecision::SpeechStart
                } else {
                    VadDecision::Silence
                }
            },
            VadPhase::InSpeech { speech_frames, silence_frames, start_sample } => {
                append_frame(accumulated, frame);
                if is_speech {
                    if speech_frames + 1 >= MAX_SPEECH_FRAMES {
                        let mut audio: Vec<T> = Vec::new();
                        std::mem::swap(&mut audio, accumulated);
                        let segment = SpeechSegment::new(audio, start_sample);
                        self.state = VadPhase::WaitingForSpeech;
                        VadDecision::SpeechEnd(segment)
                    } else {
                        self.state = VadPhase::InSpeech {
                            speech_frames: speech_frames + 1,
                            silence_frames: 0,
                            start_sample,
                        };
                        VadDecision::SpeechContinue
                    }
                } else {
                    let new_silence = silence_frames + 1;
                    if new_silence >= MAX_SILENCE_FRAMES || speech_frames + new_silence
                        >= MAX_SPEECH_FRAMES {
                        if speech_frames >= MIN_SPEECH_FRAMES {
                            let mut audio: Vec<T> = Vec::new();
                            std::mem::swap(&mut audio, accumulated);
                            let segment = SpeechSegment::new(audio, start_sample);
                            self.state = VadPhase::WaitingForSpeech;
                            VadDecision::SpeechEnd(segment)
                        } else {
                            accumulated.clear();
                            self.state = VadPhase::WaitingForSpeech;
                            VadDecision::Silence
                        }
                    } else {
                        self.state = VadPhase::InSpeech {
                            speech_frames,
                            silence_frames: new_silence,
                            start_sample,
                        };
                        VadDecision::SpeechContinue
                    }
                }
            },
        }
    }
}

/// Appends the samples of `frame` to `acc`.
fn append_frame<T: Copy>(acc: &mut Vec<T>, frame: &[T])
    ensures
        final(acc)@ == old(acc)@ + frame@,
{
    let mut i: usize = 0;
    while i < frame.len()
        invariant
            i <= frame@.len(),
            acc@ == old(acc)@ + frame@.take(i as int),
        decreases frame@.len() - i,
    {
        acc.push(frame[i]);
        assert(frame@.take(i + 1) =~= frame@.take(i as int).push(frame@[i as int]));
        i = i + 1;
    }
    assert(frame@.take(frame@.len() as int) =~= frame@);
}

/// An utterance is only handed out after at least `MIN_SPEECH_FRAMES` speech
/// frames, and handing it out (or discarding it) always returns the tracker
/// to waiting.
pub proof fn law_end_needs_min_speech(phase: VadPhase, is_speech: bool, position: u64)
    ensures
        vad_step(phase, is_speech, position).1 is End ==> (phase matches VadPhase::InSpeech {
            speech_frames,
            ..
        } && speech_frames >= MIN_SPEECH_FRAMES),
        vad_step(phase, is_speech, position).1 is End || vad_step(
            phase,
            is_speech,
            position,
        ).1 is Discard ==> vad_step(phase, is_speech, position).0 == VadPhase::WaitingForSpeech,
{
}

/// A speech frame ends an utterance only at the length cap, and a silent
/// frame never starts one.
pub proof fn law_speech_never_ends(phase: VadPhase, is_speech: bool, position: u64)
    ensures
        is_speech && !(phase matches VadPhase::InSpeech { speech_frames, .. } && speech_frames + 1
            >= MAX_SPEECH_FRAMES) ==> vad_step(phase, is_speech, position).0 is InSpeech,
        !is_speech && phase is WaitingForSpeech ==> vad_step(phase, is_speech, position).0
            is WaitingForSpeech,
{
}

/// `n` frames all silent.
pub open spec fn silence_run(n: nat) -> Seq<bool> {
    Seq::new(n, |i: int| false)
}

/// A speech frame in an utterance below the length cap continues it, counts
/// one more speech frame and starts the silence count over from zero,
/// whatever it stood at; so after any speech frame, `MAX_SILENCE_FRAMES - 1`
/// silent frames never end the utterance (short of the length cap).
pub proof fn law_speech_resets_silence(
    speech_frames: u32,
    silence_frames: u32,
    start: u64,
    position: u64,
)
    requires
        speech_frames + 1 < MAX_SPEECH_FRAMES,
    ensures
        vad_step(
            VadPhase::InSpeech { speech_frames, silence_frames, start_sample: start },
            true,
            position,
        ) == (VadPhase::InSpeech {
            speech_frames: (speech_frames + 1) as u32,
            silence_frames: 0,
            start_sample: start,
        }, VadEvent::Continue),
        speech_frames + MAX_SILENCE_FRAMES < MAX_SPEECH_FRAMES ==> vad_run(
            vad_step(
                VadPhase::InSpeech { speech_frames, silence_frames, start_sample: start },
                true,
                position,
            ).0,
            silence_run((MAX_SILENCE_FRAMES - 1) as nat),
            position,
        ) == (VadPhase::InSpeech {
            speech_frames: (speech_frames + 1) as u32,
            silence_frames: (MAX_SILENCE_FRAMES - 1) as u32,
            start_sample: start,
        }),
{
    if speech_frames + MAX_SILENCE_FRAMES < MAX_SPEECH_FRAMES {
        lemma_short_silence((speech_frames + 1) as u32, 0, start, (MAX_SILENCE_FRAMES - 1) as nat, position);
    }
}

/// Below both caps, `k` silent frames only add `k` to the silence count.
proof fn lemma_short_silence(s: u32, sil: u32, start: u64, k: nat, position: u64)
    requires
        sil + k < MAX_SILENCE_FRAMES,
        s + sil + k < MAX_SPEECH_FRAMES,
    ensures
        vad_run(
            VadPhase::InSpeech { speech_frames: s, silence_frames: sil, start_sample: start },
            silence_run(k),
            position,
        ) == (VadPhase::InSpeech {
            speech_frames: s,
            silence_frames: (sil + k) as u32,
            start_sample: start,
        }),
    decreases k,
{
    if k > 0 {
        assert(silence_run(k).drop_first() =~= silence_run((k - 1) as nat));
        lemma_short_silence(s, (sil + 1) as u32, start, (k - 1) as nat, position);
    }
}

/// `n` frames all speech.
pub open spec fn speech_run(n: nat) -> Seq<bool> {
    Seq::new(n, |i: int| true)
}

/// The safety cap: in unbroken speech, the utterance that a speech frame
/// starts goes on for `MAX_SPEECH_FRAMES - 2` more speech frames and is
/// handed out at the next one, its `MAX_SPEECH_FRAMES`-th frame (60 s).
pub proof fn law_speech_capped(start: u64, position: u64)
    ensures
        vad_step(VadPhase::WaitingForSpeech, true, start).0 == (VadPhase::InSpeech {
            speech_frames: 1,
            silence_frames: 0,
            start_sample: start,
        }),
        vad_run(
            vad_step(VadPhase::WaitingForSpeech, true, start).0,
            speech_run((MAX_SPEECH_FRAMES - 2) as nat),
            position,
        ) == (VadPhase::InSpeech {
            speech_frames: (MAX_SPEECH_FRAMES - 1) as u32,
            silence_frames: 0,
            start_sample: start,
        }),
        vad_step(
            VadPhase::InSpeech {
                speech_frames: (MAX_SPEECH_FRAMES - 1) as u32,
                silence_frames: 0,
                start_sample: start,
            },
            true,
            position,
        ).1 is End,
{
    lemma_speech_run(1, start, (MAX_SPEECH_FRAMES - 2) as nat, position);
}

/// Below the cap, `k` speech frames add `k` to the speech count.
proof fn lemma_speech_run(s: u32, start: u64, k: nat, position: u64)
    requires
        1 <= s,
        s + k <= MAX_SPEECH_FRAMES - 1,
    ensures
        vad_run(
            VadPhase::InSpeech { speech_frames: s, silence_frames: 0, start_sample: start },
            speech_run(k),
            position,
        ) == (VadPhase::InSpeech {
            speech_frames: (s + k) as u32,
            silence_frames: 0,
            start_sample: start,
        }),
    decreases k,
{
    if k > 0 {
        assert(speech_run(k).drop_first() =~= speech_run((k - 1) as nat));
        lemma_speech_run((s + 1) as u32, start, (k - 1) as nat, position);
    }
}

/// The phase after feeding a run of frames.
pub open spec fn vad_run(phase: VadPhase, frames: Seq<bool>, position: u64) -> VadPhase
    decreases frames.len(),
{
    if frames.len() == 0 {
        phase
    } else {
        vad_run(vad_step(phase, frames[0], position).0, frames.drop_first(), position)
    }
}

/// `MAX_SILENCE_FRAMES` silent frames in a row end any utterance.
pub proof fn law_silence_ends_utterance(phase: VadPhase, position: u64)
    requires
        phase matches VadPhase::InSpeech { silence_frames, .. } && silence_frames
            < MAX_SILENCE_FRAMES,
    ensures
        vad_run(phase, Seq::new(MAX_SILENCE_FRAMES as nat, |i: int| false), position)
            == VadPhase::WaitingForSpeech,
{
    lemma_silence_run(phase, (MAX_SILENCE_FRAMES - (phase->silence_frames)) as nat, position);
    let k = (MAX_SILENCE_FRAMES - phase->silence_frames) as nat;
    lemma_silence_tail(
        vad_run(phase, Seq::new(k, |i: int| false), position),
        Seq::new(MAX_SILENCE_FRAMES as nat, |i: int| false),
        k,
        phase,
        position,
    );
}

/// Within an utterance, `k` silent frames that reach the silence limit
/// leave the tracker waiting.
proof fn lemma_silence_run(phase: VadPhase, k: nat, position: u64)
    requires
        phase matches VadPhase::InSpeech { silence_frames, .. } && silence_frames + k
            == MAX_SILENCE_FRAMES && k >= 1,
    ensures
        vad_run(phase, Seq::new(k, |i: int| false), position) == VadPhase::WaitingForSpeech,
    decreases k,
{
    let s = Seq::new(k, |i: int| false);
    let next = vad_step(phase, false, position).0;
    assert(s.drop_first() =~= Seq::new((k - 1) as nat, |i: int| false));
    if k > 1 {
        if next is InSpeech {
            lemma_silence_run(next, (k - 1) as nat, position);
        } else {
            lemma_waiting_stays(next, (k - 1) as nat, position);
        }
    } else {
        assert(s.drop_first().len() == 0);
    }
}

/// Silent frames leave a waiting tracker waiting.
proof fn lemma_waiting_stays(phase: VadPhase, k: nat, position: u64)
    requires
        phase == VadPhase::WaitingForSpeech,
    ensures
        vad_run(phase, Seq::new(k, |i: int| false), position) == VadPhase::WaitingForSpeech,
    decreases k,
{
    let s = Seq::new(k, |i: int| false);
    if k > 0 {
        assert(s.drop_first() =~= Seq::new((k - 1) as nat, |i: int| false));
        lemma_waiting_stays(phase, (k - 1) as nat, position);
    }
}

/// Running `MAX_SILENCE_FRAMES` silent frames is running the first `k`,
/// then the rest from a waiting tracker.
proof fn lemma_silence_tail(mid: VadPhase, all: Seq<bool>, k: nat, phase: VadPhase, position: u64)
    requires
        all == Seq::new(MAX_SILENCE_FRAMES as nat, |i: int| false),
        1 <= k <= MAX_SILENCE_FRAMES,
        mid == vad_run(phase, Seq::new(k, |i: int| false), position),
        mid == VadPhase::WaitingForSpeech,
    ensures
        vad_run(phase, all, position) == VadPhase::WaitingForSpeech,
{
    lemma_run_split(phase, Seq::new(k, |i: int| false), Seq::new((MAX_SILENCE_FRAMES - k) as nat, |i: int| false), position);
    assert(Seq::new(k, |i: int| false) + Seq::new((MAX_SILENCE_FRAMES - k) as nat, |i: int| false) =~= all);
    lemma_waiting_stays(mid, (MAX_SILENCE_FRAMES - k) as nat, position);
}

/// Running two runs of frames one after the other.
proof fn lemma_run_split(phase: VadPhase, a: Seq<bool>, b: Seq<bool>, position: u64)
    ensures
        vad_run(phase, a + b, position) == vad_run(vad_run(phase, a, position), b, position),
    decreases a.len(),
{
    if a.len() > 0 {
        assert((a + b).drop_first() =~= a.drop_first() + b);
        lemma_run_split(vad_step(phase, a[0], position).0, a.drop_first(), b, position);
    } else {
        assert(a + b =~= b);
    }
}

} // verus!
