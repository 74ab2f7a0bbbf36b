//! Voice activity detection: the speech/silence state machine.
//!
//! Whether a frame holds speech is decided from its samples by the
//! application (an energy threshold); this module keeps the timing state:
//! how long speech or silence has lasted, and which phase that puts the
//! speaker in.

use vstd::prelude::*;

use crate::error::Error;

verus! {

/// Phase of the speaker as seen by voice activity detection.
#[derive(Debug, Clone, Copy, PartialEq, Eq, Structural)]
pub enum VadState {
    /// No speech detected.
    Idle,
    /// Speech detected.
    Speaking,
    /// Speech ending (silence shorter than what ends speech, or just long
    /// enough).
    Ending,
    /// Silence after speech ended.
    Silence,
}

impl Default for VadState {
    fn default() -> (s: Self)
        ensures
            s == VadState::Idle,
    {
        VadState::Idle
    }
}

/// Whether the speaker counts as speaking in a phase.
pub open spec fn speaking_in(s: VadState) -> bool {
    s == VadState::Speaking || s == VadState::Ending
}

impl VadState {
    /// Whether the speaker counts as speaking: while speaking and while
    /// speech is ending.
    pub fn is_speaking(&self) -> (b: bool)
        ensures
            b == speaking_in(*self),
    {
        matches!(self, VadState::Speaking | VadState::Ending)
    }
}

/// Timing settings of voice activity detection.
#[derive(Debug, Clone, Copy, PartialEq, Eq, Structural)]
pub struct VadTiming {
    /// Speech that must accumulate before speaking starts, in ms.
    pub min_speech_duration_ms: u32,
    /// Silence that ends speech, in ms.
    pub min_silence_duration_ms: u32,
    /// Sample rate of the analysed audio.
    pub sample_rate: u32,
}

impl Default for VadTiming {
    fn default() -> (t: Self)
        ensures
            t.min_speech_duration_ms == 250,
            t.min_silence_duration_ms == 300,
            t.sample_rate == 16000,
    {
        VadTiming { min_speech_duration_ms: 250, min_silence_duration_ms: 300, sample_rate: 16000 }
    }
}

/// Milliseconds of audio in `len` samples at `sample_rate`, rounded down.
pub open spec fn frame_duration_ms(len: int, sample_rate: int) -> int {
    (len * 1000) / sample_rate
}

/// Milliseconds of audio in a frame of `len` samples at `sample_rate`,
/// rounded down, computed in 32 bits.
pub fn frame_ms(len: usize, sample_rate: u32) -> (ms: u32)
    requires
        sample_rate > 0,
        len * 1000 <= u32::MAX,
    ensures
        ms == frame_duration_ms(len as int, sample_rate as int),
{
    let n = len as u32;
    (n * 1000) / sample_rate
}

/// What the detector remembers between frames.
pub struct VadView {
    pub timing: VadTiming,
    pub state: VadState,
    pub speech_ms: int,
    pub silence_ms: int,
}

/// The detector after one frame. A speech frame adds to the speech time and
/// clears the silence time; from idle or silence it starts speaking once the
/// speech time reaches the minimum. A silent frame adds to the silence time
/// and clears the speech time; once the silence time reaches the minimum,
/// speaking turns to ending and ending turns to silence.
pub open spec fn vad_step(v: VadView, is_speech: bool, frame_ms: u32) -> VadView {
    if is_speech {
        let sp = v.speech_ms + frame_ms;
        VadView {
            timing: v.timing,
            state: if (v.state == VadState::Idle || v.state == VadState::Silence) && sp
                >= v.timing.min_speech_duration_ms {
                VadState::Speaking
            } else {
                v.state
            },
            speech_ms: sp,
            silence_ms: 0,
        }
    } else {
        let si = v.silence_ms + frame_ms;
        VadView {
            timing: v.timing,
            state: if v.state == VadState::Speaking && si >= v.timing.min_silence_duration_ms {
                VadState::Ending
            } else if v.state == VadState::Ending && si >= v.timing.min_silence_duration_ms {
                VadState::Silence
            } else {
                v.state
            },
            speech_ms: 0,
            silence_ms: si,
        }
    }
}

/// Whether the counter that a frame adds to stays within 32 bits.
pub open spec fn step_fits(v: VadView, is_speech: bool, frame_ms: u32) -> bool {
    if is_speech {
        v.speech_ms + frame_ms <= u32::MAX
    } else {
        v.silence_ms + frame_ms <= u32::MAX
    }
}

/// The detector after a run of frames, each a pair of "holds speech" and
/// its duration in ms.
pub open spec fn vad_run(v: VadView, frames: Seq<(bool, u32)>) -> VadView
    decreases frames.len(),
{
    if frames.len() == 0 {
        v
    } else {
        vad_run(vad_step(v, frames[0].0, frames[0].1), frames.drop_first())
    }
}

/// Whether no frame of a run overflows a counter.
pub open spec fn run_fits(v: VadView, frames: Seq<(bool, u32)>) -> bool
    decreases frames.len(),
{
    if frames.len() == 0 {
        true
    } else {
        step_fits(v, frames[0].0, frames[0].1) && run_fits(
            vad_step(v, frames[0].0, frames[0].1),
            frames.drop_first(),
        )
    }
}

/// Total duration of a run of frames, in ms.
pub open spec fn run_ms(frames: Seq<(bool, u32)>) -> int
    decreases frames.len(),
{
    if frames.len() == 0 {
        0
    } else {
        frames[0].1 + run_ms(frames.drop_first())
    }
}

/// Energy-based voice activity detector: the timing state machine fed
/// with per-frame speech decisions.
#[derive(Debug)]
pub struct SileroVad {
    timing: VadTiming,
    state: VadState,
    speech_duration_ms: u32,
    silence_duration_ms: u32,
}

impl View for SileroVad {
    type V = VadView;

    closed spec fn view(&self) -> VadView {
        VadView {
            timing: self.timing,
            state: self.state,
            speech_ms: self.speech_duration_ms as int,
            silence_ms: self.silence_duration_ms as int,
        }
    }
}

impl SileroVad {
    /// A detector with the given timing, idle, with nothing counted.
    pub fn new(timing: VadTiming) -> (r: Result<Self, Error>)
        ensures
            r matches Ok(v) && v@ == (VadView {
                timing,
                state: VadState::Idle,
                speech_ms: 0,
                silence_ms: 0,
            }),
    {
        Ok(SileroVad { timing, state: VadState::Idle, speech_duration_ms: 0, silence_duration_ms: 0 })
    }

    /// The detector is always ready.
    pub fn is_ready(&self) -> (b: bool)
        ensures
            b,
    {
        true
    }

    /// The timing settings.
    pub fn timing(&self) -> (t: VadTiming)
        ensures
            t == self@.timing,
    {
        self.timing
    }

    /// The current phase.
    pub fn state(&self) -> (s: VadState)
        ensures
            s == self@.state,
    {
        self.state
    }

    /// Whether a frame can be taken without a counter overflowing.
    pub fn accepts(&self, is_speech: bool, frame_ms: u32) -> (b: bool)
        ensures
            b == step_fits(self@, is_speech, frame_ms),
    {
        if is_speech {
            frame_ms <= u32::MAX - self.speech_duration_ms
        } else {
            frame_ms <= u32::MAX - self.silence_duration_ms
        }
    }

    /// Takes one frame of `frame_ms` milliseconds that holds speech or not,
    /// and returns the new phase.
    pub fn update(&mut self, is_speech: bool, frame_ms: u32) -> (s: VadState)
        requires
            step_fits(old(self)@, is_speech, frame_ms),
        ensures
            final(self)@ == vad_step(old(self)@, is_speech, frame_ms),
            s == final(self)@.state,
    {
        if is_speech {
            self.speech_duration_ms = self.speech_duration_ms + frame_ms;
            self.silence_duration_ms = 0;
            if (self.state == VadState::Idle || self.state == VadState::Silence)
                && self.speech_duration_ms >= self.timing.min_speech_duration_ms {
                self.state = VadState::Speaking;
            }
        } else {
            self.silence_duration_ms = self.silence_duration_ms + frame_ms;
            self.speech_duration_ms = 0;
            if self.state == VadState::Speaking && self.silence_duration_ms
                >= self.timing.min_silence_duration_ms {
                self.state = VadState::Ending;
            } else if self.state == VadState::Ending && self.silence_duration_ms
                >= self.timing.min_silence_duration_ms {
                self.state = VadState::Silence;
            }
        }
        self.state
    }
}

/// Voice activity detection system; the energy-based detector is the one
/// backend.
#[derive(Debug)]
pub enum VadSystem {
    /// Energy-based detection.
    Energy(SileroVad),
}

impl View for VadSystem {
    type V = VadView;

    open spec fn view(&self) -> VadView {
        match self {
            VadSystem::Energy(b) => b@,
        }
    }
}

impl VadSystem {
    /// A system with the default timing (250 ms of speech, 300 ms of
    /// silence, 16 kHz).
    pub fn new() -> (r: Result<Self, Error>)
        ensures
            r matches Ok(v) && v@ == (VadView {
                timing: VadTiming {
                    min_speech_duration_ms: 250,
                    min_silence_duration_ms: 300,
                    sample_rate: 16000,
                },
                state: VadState::Idle,
                speech_ms: 0,
                silence_ms: 0,
            }),
    {
        let timing = VadTiming::default();
        Self::with_timing(timing)
    }

    /// A system with the given timing.
    pub fn with_timing(timing: VadTiming) -> (r: Result<Self, Error>)
        ensures
            r matches Ok(v) && v@ == (VadView {
                timing,
                state: VadState::Idle,
                speech_ms: 0,
                silence_ms: 0,
            }),
    {
        match SileroVad::new(timing) {
            Ok(b) => Ok(VadSystem::Energy(b)),
            Err(e) => Err(e),
        }
    }

    /// Whether the system is ready; the energy detector always is.
    pub fn is_ready(&self) -> (b: bool)
        ensures
            b,
    {
        match self {
            VadSystem::Energy(b) => b.is_ready(),
        }
    }

    /// The current phase.
    pub fn state(&self) -> (s: VadState)
        ensures
            s == self@.state,
    {
        match self {
            VadSystem::Energy(b) => b.state(),
        }
    }

    /// Whether a frame can be taken without a counter overflowing.
    pub fn accepts(&self, is_speech: bool, frame_ms: u32) -> (b: bool)
        ensures
            b == step_fits(self@, is_speech, frame_ms),
    {
        match self {
            VadSystem::Energy(b) => b.accepts(is_speech, frame_ms),
        }
    }

    /// Takes one frame and returns the new phase.
    pub fn update(&mut self, is_speech: bool, frame_ms: u32) -> (s: VadState)
        requires
            step_fits(old(self)@, is_speech, frame_ms),
        ensures
            final(self)@ == vad_step(old(self)@, is_speech, frame_ms),
            s == final(self)@.state,
    {
        match self {
            VadSystem::Energy(b) => b.update(is_speech, frame_ms),
        }
    }
}

/// After any frame one of the two counters is zero: a speech frame clears
/// the silence time and a silent frame clears the speech time.
pub proof fn lemma_counters_exclusive(v: VadView, is_speech: bool, frame_ms: u32)
    ensures
        vad_step(v, is_speech, frame_ms).speech_ms == 0 || vad_step(
            v,
            is_speech,
            frame_ms,
        ).silence_ms == 0,
        is_speech ==> vad_step(v, is_speech, frame_ms).silence_ms == 0,
        !is_speech ==> vad_step(v, is_speech, frame_ms).speech_ms == 0,
{
}

/// Phases follow one another in order: idle or silence go only to
/// speaking, speaking only to ending, ending only to silence; speaking
/// starts only on speech and ends only on silence; timing never changes.
pub proof fn lemma_phase_order(v: VadView, is_speech: bool, frame_ms: u32)
    ensures
        ({
            let w = vad_step(v, is_speech, frame_ms);
            &&& w.timing == v.timing
            &&& v.state == VadState::Idle ==> (w.state == VadState::Idle || w.state
                == VadState::Speaking)
            &&& v.state == VadState::Silence ==> (w.state == VadState::Silence || w.state
                == VadState::Speaking)
            &&& v.state == VadState::Speaking ==> (w.state == VadState::Speaking || w.state
                == VadState::Ending)
            &&& v.state == VadState::Ending ==> (w.state == VadState::Ending || w.state
                == VadState::Silence)
            &&& (w.state == VadState::Speaking && v.state != VadState::Speaking) ==> is_speech
            &&& (w.state != v.state && (v.state == VadState::Speaking || v.state
                == VadState::Ending)) ==> !is_speech
        }),
{
}

/// Speech that lasts long enough starts speaking: from idle, silence or
/// speaking, a run of speech frames whose speech time, added to what was
/// counted, reaches the minimum ends in the speaking phase.
pub proof fn lemma_sustained_speech(v: VadView, frames: Seq<(bool, u32)>)
    requires
        v.state != VadState::Ending,
        frames.len() > 0,
        forall|i: int| 0 <= i < frames.len() ==> #[trigger] frames[i].0,
        v.speech_ms + run_ms(frames) >= v.timing.min_speech_duration_ms,
    ensures
        vad_run(v, frames).state == VadState::Speaking,
        vad_run(v, frames).speech_ms == v.speech_ms + run_ms(frames),
    decreases frames.len(),
{
    let w = vad_step(v, frames[0].0, frames[0].1);
    let rest = frames.drop_first();
    assert(frames[0].0);
    assert(vad_run(v, frames) == vad_run(w, rest));
    if rest.len() == 0 {
        assert(run_ms(rest) == 0);
        assert(vad_run(w, rest) == w);
    } else {
        assert forall|i: int| 0 <= i < rest.len() implies #[trigger] rest[i].0 by {
            assert(rest[i] == frames[i + 1]);
        }
        lemma_sustained_speech(w, rest);
    }
}

/// Silence that lasts long enough ends speech: from speaking, ending or
/// silence, a run of silent frames whose silence time, added to what was
/// counted, reaches the minimum ends in the ending or silence phase, never
/// speaking again; a further silent frame then ends in silence.
pub proof fn lemma_sustained_silence(v: VadView, frames: Seq<(bool, u32)>, last_ms: u32)
    requires
        v.state == VadState::Speaking || v.state == VadState::Ending || v.state
            == VadState::Silence,
        frames.len() > 0,
        forall|i: int| 0 <= i < frames.len() ==> !(#[trigger] frames[i].0),
        v.silence_ms + run_ms(frames) >= v.timing.min_silence_duration_ms,
    ensures
        vad_run(v, frames).state == VadState::Ending || vad_run(v, frames).state
            == VadState::Silence,
        vad_run(v, frames).silence_ms == v.silence_ms + run_ms(frames),
        vad_step(vad_run(v, frames), false, last_ms).state == VadState::Silence,
    decreases frames.len(),
{
    let w = vad_step(v, frames[0].0, frames[0].1);
    let rest = frames.drop_first();
    assert(!frames[0].0);
    assert(vad_run(v, frames) == vad_run(w, rest));
    if rest.len() == 0 {
        assert(run_ms(rest) == 0);
        assert(vad_run(w, rest) == w);
    } else {
        assert forall|i: int| 0 <= i < rest.len() implies !(#[trigger] rest[i].0) by {
            assert(rest[i] == frames[i + 1]);
        }
        lemma_sustained_silence(w, rest, last_ms);
    }
}

} // verus!
