//! Barge-in: the user interrupting TTS playback.
//!
//! While TTS plays, a monitor watches the microphone's energy frame by
//! frame; `BARGEIN_CONSECUTIVE_FRAMES` loud frames in a row stop playback.
//! The speech captured after the stop is transcribed and, unless it is
//! noise, returned as the interruption.
use std::sync::atomic::AtomicBool;
use std::sync::Arc;
use vstd::prelude::*;

verus! {

/// Loud frames in a row that trigger barge-in (3 frames × 32 ms ≈ 100 ms).
pub const BARGEIN_CONSECUTIVE_FRAMES: u32 = 3;

/// Result of an interruptible speak.
#[derive(Debug)]
pub enum BargeInResult {
    /// Playback completed: the user did not interrupt.
    Completed,
    /// The user interrupted; what they said.
    Interrupted(String),
}

/// After playback: whether the speech captured since the stop has to be
/// transcribed. Completed playback, or a stop with nothing captured, is no
/// interruption (`Completed`) and needs no transcript.
pub fn needs_transcript(completed: bool, captured_samples: usize) -> (r: bool)
    ensures
        r == (!completed && captured_samples > 0),
{
    !completed && captured_samples > 0
}

/// The outcome of an interruption once the captured speech is transcribed:
/// noise or an empty transcript count as no interruption.
pub fn interruption_result(text: String, is_noise: bool) -> (r: BargeInResult)
    ensures
        (is_noise || text@.len() == 0) ==> r is Completed,
        !(is_noise || text@.len() == 0) ==> (r matches BargeInResult::Interrupted(t) && t@
            == text@),
{
    if is_noise || text.as_str().is_empty() {
        BargeInResult::Completed
    } else {
        BargeInResult::Interrupted(text)
    }
}

/// Counts loud frames in a row during playback.
pub struct EnergyMonitor {
    consecutive_high: u32,
}

/// Length of the run of `true` at the end of `frames`.
pub open spec fn trailing_loud(frames: Seq<bool>) -> nat
    decreases frames.len(),
{
    if frames.len() == 0 || !frames.last() {
        0
    } else {
        1 + trailing_loud(frames.drop_last())
    }
}

impl EnergyMonitor {
    /// Loud frames in a row so far.
    pub closed spec fn run_length(&self) -> nat {
        self.consecutive_high as nat
    }

    /// A monitor that has seen no frame.
    pub fn new() -> (r: Self)
        ensures
            r.run_length() == 0,
    {
        EnergyMonitor { consecutive_high: 0 }
    }

    /// Records one frame; `true` when it completes a run of
    /// `BARGEIN_CONSECUTIVE_FRAMES` loud frames, at which point monitoring
    /// stops.
    pub fn observe(&mut self, loud: bool) -> (r: bool)
        requires
            old(self).run_length() < BARGEIN_CONSECUTIVE_FRAMES,
        ensures
            final(self).run_length() == if loud {
                old(self).run_length() + 1
            } else {
                0
            },
            r == (final(self).run_length() >= BARGEIN_CONSECUTIVE_FRAMES),
    {
        if loud {
            self.consecutive_high = self.consecutive_high + 1;
            self.consecutive_high >= BARGEIN_CONSECUTIVE_FRAMES
        } else {
            self.consecutive_high = 0;
            false
        }
    }

    /// Loud frames in a row so far.
    pub fn consecutive(&self) -> (r: u32)
        ensures
            r == self.run_length(),
    {
        self.consecutive_high
    }
}

/// The monitor's run length after frames `frames` is the number of loud
/// frames at their end, so it fires on the first frame that ends a run of
/// `BARGEIN_CONSECUTIVE_FRAMES` loud frames.
pub proof fn law_monitor_counts_trailing_run(before: Seq<bool>, loud: bool, count: nat)
    requires
        count == trailing_loud(before),
    ensures
        trailing_loud(before.push(loud)) == if loud {
            count + 1
        } else {
            0
        },
{
    assert(before.push(loud).drop_last() =~= before);
}

/// Shared stop switch for TTS playback.
pub struct BargeInController {
    /// Set to stop playback; shared with the player and the monitor.
    stop_flag: Arc<AtomicBool>,
}

/// Calls `Arc::clone`: another handle on the same allocation, so on the
/// same switch (which Verus reads as a value equal to the first).
#[verifier::external_body]
fn share_switch(flag: &Arc<AtomicBool>) -> (r: Arc<AtomicBool>)
    ensures
        r == *flag,
{
    Arc::clone(flag)
}

impl BargeInController {
    /// The shared switch this controller sets and reads.
    pub closed spec fn switch(&self) -> Arc<AtomicBool> {
        self.stop_flag
    }

    /// A controller whose switch is off.
    pub fn new() -> Self {
        BargeInController { stop_flag: Arc::new(AtomicBool::new(false)) }
    }

    /// Turns the switch off before a new playback.
    pub fn arm(&self) {
        self.stop_flag.store(false, std::sync::atomic::Ordering::SeqCst);
    }

    /// Force-stops any current playback.
    pub fn stop(&self) {
        self.stop_flag.store(true, std::sync::atomic::Ordering::SeqCst);
    }

    /// The switch is on (playback stopped). Other threads share the switch,
    /// so its value is whatever was stored last by any of them.
    pub fn is_stopped(&self) -> bool {
        self.stop_flag.load(std::sync::atomic::Ordering::SeqCst)
    }

    /// The switch, for the player and the monitor: a handle on this
    /// controller's own switch, not a new one.
    pub fn stop_flag(&self) -> (r: Arc<AtomicBool>)
        ensures
            r == self.switch(),
    {
        share_switch(&self.stop_flag)
    }
}

impl Default for BargeInController {
    fn default() -> Self {
        Self::new()
    }
}

} // verus!
