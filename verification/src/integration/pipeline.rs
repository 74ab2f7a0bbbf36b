//! The voice pipeline: decides, chunk by chunk, what the detectors' findings
//! mean for the dialogue.

use vstd::prelude::*;

use super::config::PipelineConfig;
use crate::error::Error;
use crate::pipeline::events::{valid_from, DialogueEvent};
use crate::pipeline::manager::{next_state, DialogueManager};
use crate::pipeline::state::DialogueState;
use crate::vad::{frame_duration_ms, speaking_in, step_fits, vad_step, VadSystem, VadTiming, VadView};

verus! {

/// Rate at which the pipeline analyses audio (Whisper's rate).
pub const PIPELINE_SAMPLE_RATE: u32 = 16000;

/// What the application's detectors found in one chunk of audio.
#[derive(Debug, Clone)]
pub struct AudioObservation {
    /// The keyword, when the wake word detector ran on the chunk and found
    /// a wake word.
    pub wake_word: Option<String>,
    /// Whether the chunk holds speech by the voice activity threshold.
    pub is_speech: bool,
    /// Number of samples of the chunk at the pipeline rate.
    pub analysed_len: usize,
}

/// What processing a chunk led to.
#[derive(Debug)]
pub enum PipelineStep<S> {
    /// The wake word was detected; the pipeline listens.
    WakeWordDetected {
        /// The detected keyword.
        keyword: String,
    },
    /// The user started speaking (or interrupted the reply).
    SpeechStarted,
    /// The user's speech was captured.
    SpeechEnded {
        /// Audio captured while listening.
        audio: Vec<S>,
    },
    /// Listening timed out; the pipeline is idle.
    Idle,
}

/// Milliseconds of a chunk at the pipeline rate.
pub open spec fn analysed_ms(obs: AudioObservation) -> u32 {
    frame_duration_ms(obs.analysed_len as int, PIPELINE_SAMPLE_RATE as int) as u32
}

/// The detector after a chunk, when there is one.
pub open spec fn vad_after(vad: Option<VadView>, obs: AudioObservation) -> Option<VadView> {
    match vad {
        Some(v) => Some(vad_step(v, obs.is_speech, analysed_ms(obs))),
        None => None,
    }
}

/// Whether a detector is there and counts the speaker as speaking.
pub open spec fn hears_speech(vad: Option<VadView>) -> bool {
    vad matches Some(v) && speaking_in(v.state)
}

/// Whether the detector, if any, can take the chunk.
pub open spec fn vad_fits(vad: Option<VadView>, obs: AudioObservation) -> bool {
    vad matches Some(v) ==> step_fits(v, obs.is_speech, analysed_ms(obs))
}

/// Whether `len` samples at `rate` are more seconds than `max_secs`.
pub open spec fn over_limit(len: int, rate: int, max_secs: int) -> bool {
    len / rate > max_secs
}

/// What the pipeline holds.
pub struct PipelineView<S> {
    /// Dialogue state.
    pub state: DialogueState,
    /// Whether wake word detection is on.
    pub wake_word: bool,
    /// The voice activity detector, when enabled.
    pub vad: Option<VadView>,
    /// Audio captured while listening.
    pub buffer: Seq<S>,
    /// Longest audio buffered while listening, in seconds.
    pub max_buffer_secs: u32,
    /// Silence heard since listening started or since the last speech
    /// chunk, in milliseconds.
    pub silence_ms: nat,
    /// Silence after which listening gives up, in seconds.
    pub silence_timeout_secs: u32,
}

/// The silence timeout in milliseconds.
pub open spec fn timeout_ms<S>(v: PipelineView<S>) -> int {
    v.silence_timeout_secs as int * 1000
}

/// The silence counted after a listening chunk: reset by speech, else
/// grown by the chunk's length.
pub open spec fn silence_after<S>(v: PipelineView<S>, obs: AudioObservation) -> nat {
    if obs.is_speech {
        0
    } else {
        v.silence_ms + analysed_ms(obs) as nat
    }
}

/// The pipeline after processing a chunk captured at `rate` with what the
/// detectors found in it.
pub open spec fn pipeline_after<S>(
    v: PipelineView<S>,
    chunk: Seq<S>,
    rate: u32,
    obs: AudioObservation,
) -> PipelineView<S> {
    match v.state {
        DialogueState::Idle => if v.wake_word && obs.wake_word is Some {
            PipelineView { state: DialogueState::Listening, silence_ms: 0, ..v }
        } else {
            v
        },
        DialogueState::Listening => {
            let buffered = v.buffer + chunk;
            let vad = vad_after(v.vad, obs);
            let silence = silence_after(v, obs);
            if hears_speech(vad) {
                PipelineView {
                    state: DialogueState::Processing,
                    vad,
                    buffer: buffered,
                    silence_ms: 0,
                    ..v
                }
            } else if over_limit(buffered.len() as int, rate as int, v.max_buffer_secs as int)
                || silence > timeout_ms(v) {
                PipelineView {
                    state: DialogueState::Idle,
                    vad,
                    buffer: Seq::empty(),
                    silence_ms: 0,
                    ..v
                }
            } else {
                PipelineView { vad, buffer: buffered, silence_ms: silence, ..v }
            }
        },
        DialogueState::Processing => PipelineView {
            state: DialogueState::Speaking,
            buffer: Seq::empty(),
            ..v
        },
        DialogueState::Speaking => {
            let vad = vad_after(v.vad, obs);
            if hears_speech(vad) {
                PipelineView {
                    state: DialogueState::Listening,
                    vad,
                    buffer: Seq::empty(),
                    silence_ms: 0,
                    ..v
                }
            } else {
                PipelineView { vad, ..v }
            }
        },
    }
}

/// The dialogue event a chunk fires, if any.
pub open spec fn event_of_step<S>(
    v: PipelineView<S>,
    chunk: Seq<S>,
    rate: u32,
    obs: AudioObservation,
) -> Option<DialogueEvent> {
    match v.state {
        DialogueState::Idle => if v.wake_word && obs.wake_word is Some {
            Some(DialogueEvent::WakeWordDetected)
        } else {
            None
        },
        DialogueState::Listening => if hears_speech(vad_after(v.vad, obs)) {
            Some(DialogueEvent::SpeechDetected)
        } else if over_limit((v.buffer + chunk).len() as int, rate as int, v.max_buffer_secs as int)
            || silence_after(v, obs) > timeout_ms(v) {
            Some(DialogueEvent::SilenceTimeout)
        } else {
            None
        },
        DialogueState::Processing => Some(DialogueEvent::ResponseReady),
        DialogueState::Speaking => if hears_speech(vad_after(v.vad, obs)) {
            Some(DialogueEvent::SpeechDetected)
        } else {
            None
        },
    }
}

/// The pipeline only moves as the dialogue state machine allows: a chunk
/// either leaves the dialogue state as it is or fires an event that is
/// valid from it and leads where the state machine leads.
pub proof fn lemma_pipeline_follows_dialogue<S>(
    v: PipelineView<S>,
    chunk: Seq<S>,
    rate: u32,
    obs: AudioObservation,
)
    ensures
        match event_of_step(v, chunk, rate, obs) {
            Some(e) => valid_from(e, v.state) && pipeline_after(v, chunk, rate, obs).state
                == next_state(v.state, e),
            None => pipeline_after(v, chunk, rate, obs).state == v.state,
        },
{
}

/// While listening, the buffer limit is counted in seconds of audio at the
/// chunk's own capture rate: with `m` the limit, a chunk that is not heard
/// as speech and keeps the silence within its timeout keeps the pipeline
/// listening, with every sample buffered, as long as the buffer holds fewer
/// than `(m + 1) * rate` samples (whole seconds beyond `m` are needed to
/// exceed it), and drops to `Idle` with an empty buffer from that many on.
pub proof fn lemma_buffer_limit_at_capture_rate<S>(
    v: PipelineView<S>,
    chunk: Seq<S>,
    rate: u32,
    obs: AudioObservation,
)
    requires
        v.state == DialogueState::Listening,
        rate > 0,
        !hears_speech(vad_after(v.vad, obs)),
    ensures
        ({
            let len = (v.buffer + chunk).len();
            let after = pipeline_after(v, chunk, rate, obs);
            &&& (len < (v.max_buffer_secs + 1) * rate && silence_after(v, obs) <= timeout_ms(v))
                ==> (after.state == DialogueState::Listening && after.buffer == v.buffer + chunk)
            &&& len >= (v.max_buffer_secs + 1) * rate ==> (after.state == DialogueState::Idle
                && after.buffer.len() == 0)
        }),
{
    let len = (v.buffer + chunk).len() as int;
    let r = rate as int;
    let m = v.max_buffer_secs as int;
    assert(len / r > m <==> len >= (m + 1) * r) by (nonlinear_arith)
        requires
            r > 0,
            len >= 0,
            m >= 0,
    {
        if len >= (m + 1) * r {
            assert(len / r >= (m + 1) * r / r) by {
                vstd::arithmetic::div_mod::lemma_div_is_ordered((m + 1) * r, len, r);
            }
            vstd::arithmetic::div_mod::lemma_div_by_multiple(m + 1, r);
        } else {
            vstd::arithmetic::div_mod::lemma_fundamental_div_mod(len, r);
        }
    }
}

/// The pipeline after a run of chunks, each with its capture rate and what
/// the detectors found in it.
pub open spec fn pipeline_run<S>(
    v: PipelineView<S>,
    steps: Seq<(Seq<S>, u32, AudioObservation)>,
) -> PipelineView<S>
    decreases steps.len(),
{
    if steps.len() == 0 {
        v
    } else {
        pipeline_run(pipeline_after(v, steps[0].0, steps[0].1, steps[0].2), steps.drop_first())
    }
}

/// The chunks of a run, one after the other.
pub open spec fn chunks_of<S>(steps: Seq<(Seq<S>, u32, AudioObservation)>) -> Seq<S>
    decreases steps.len(),
{
    if steps.len() == 0 {
        Seq::empty()
    } else {
        steps[0].0 + chunks_of(steps.drop_first())
    }
}

/// Listening keeps everything it hears: over a run of chunks during which
/// the pipeline stays listening, the buffer grows by exactly those chunks,
/// in order.
pub proof fn lemma_listening_keeps_all_audio<S>(
    v: PipelineView<S>,
    steps: Seq<(Seq<S>, u32, AudioObservation)>,
)
    requires
        v.state == DialogueState::Listening,
        forall|k: int|
            0 <= k <= steps.len() ==> (#[trigger] pipeline_run(v, steps.take(k))).state
                == DialogueState::Listening,
    ensures
        pipeline_run(v, steps).buffer == v.buffer + chunks_of(steps),
        pipeline_run(v, steps).state == DialogueState::Listening,
    decreases steps.len(),
{
    if steps.len() == 0 {
        assert(steps.take(0) =~= steps);
        assert(v.buffer + chunks_of(steps) =~= v.buffer);
    } else {
        let w = pipeline_after(v, steps[0].0, steps[0].1, steps[0].2);
        let rest = steps.drop_first();
        assert(steps.take(1).drop_first() =~= Seq::<(Seq<S>, u32, AudioObservation)>::empty());
        assert(pipeline_run(v, steps.take(1)) == pipeline_run(w, steps.take(1).drop_first()));
        assert(pipeline_run(v, steps.take(1)).state == DialogueState::Listening);
        assert(w.buffer == v.buffer + steps[0].0);
        assert forall|k: int| 0 <= k <= rest.len() implies (#[trigger] pipeline_run(
            w,
            rest.take(k),
        )).state == DialogueState::Listening by {
            assert(steps.take(k + 1).drop_first() =~= rest.take(k));
            assert(steps.take(k + 1)[0] == steps[0]);
            assert(pipeline_run(v, steps.take(k + 1)) == pipeline_run(w, rest.take(k)));
        }
        lemma_listening_keeps_all_audio(w, rest);
        assert(steps.take(steps.len() as int) =~= steps);
        assert(v.buffer + steps[0].0 + chunks_of(rest) =~= v.buffer + chunks_of(steps));
    }
}

/// Voice pipeline: the dialogue state machine, an optional voice activity
/// detector, whether wake word detection is on, and the audio captured
/// while listening.
pub struct VoicePipeline<S> {
    dialogue: DialogueManager,
    wake_word: bool,
    vad: Option<VadSystem>,
    audio_buffer: Vec<S>,
    config: PipelineConfig,
    silence_ms: u64,
}

impl<S> View for VoicePipeline<S> {
    type V = PipelineView<S>;

    closed spec fn view(&self) -> PipelineView<S> {
        PipelineView {
            state: self.dialogue@,
            wake_word: self.wake_word,
            vad: match self.vad {
                Some(v) => Some(v@),
                None => None,
            },
            buffer: self.audio_buffer@,
            max_buffer_secs: self.config.max_audio_buffer_secs,
            silence_ms: self.silence_ms as nat,
            silence_timeout_secs: self.config.silence_timeout_secs,
        }
    }
}

impl<S> VoicePipeline<S> {
    /// Well-formedness, which every pipeline keeps: the silence counted
    /// never exceeds the timeout, since on exceeding it the pipeline stops
    /// listening and starts counting anew.
    pub open spec fn wf(&self) -> bool {
        self@.silence_ms <= timeout_ms(self@)
    }
}

impl<S: Copy> VoicePipeline<S> {
    /// A pipeline in the idle state with an empty buffer, wake word
    /// detection as configured, and a detector with the configured timing
    /// (the default timing when none is given) when detection is enabled.
    pub fn new(config: PipelineConfig) -> (r: Result<Self, Error>)
        ensures
            r matches Ok(p) && {
                &&& p.wf()
                &&& p@.state == DialogueState::Idle
                &&& p@.wake_word == config.enable_wake_word
                &&& p@.buffer.len() == 0
                &&& p@.max_buffer_secs == config.max_audio_buffer_secs
                &&& p@.silence_ms == 0
                &&& p@.silence_timeout_secs == config.silence_timeout_secs
                &&& config.enable_vad <==> p@.vad is Some
                &&& p@.vad matches Some(v) ==> {
                    &&& v.state == crate::vad::VadState::Idle
                    &&& v.speech_ms == 0
                    &&& v.silence_ms == 0
                    &&& config.vad_timing matches Some(t) ==> v.timing == t
                    &&& config.vad_timing is None ==> v.timing == (VadTiming {
                        min_speech_duration_ms: 250,
                        min_silence_duration_ms: 300,
                        sample_rate: 16000,
                    })
                }
            },
    {
        let vad = if config.enable_vad {
            let timing = match config.vad_timing {
                Some(t) => t,
                None => VadTiming::default(),
            };
            match VadSystem::with_timing(timing) {
                Ok(v) => Some(v),
                Err(e) => {
                    return Err(e);
                },
            }
        } else {
            None
        };
        Ok(VoicePipeline {
            dialogue: DialogueManager::new(),
            wake_word: config.enable_wake_word,
            vad,
            audio_buffer: Vec::new(),
            config,
            silence_ms: 0,
        })
    }

    /// The current dialogue state.
    pub fn state(&self) -> (s: DialogueState)
        ensures
            s == self@.state,
    {
        self.dialogue.state()
    }

    /// Whether the current state can be interrupted (only `Speaking`).
    pub fn can_interrupt(&self) -> (b: bool)
        ensures
            b <==> self@.state == DialogueState::Speaking,
    {
        self.dialogue.can_interrupt()
    }

    /// Whether wake word detection is enabled.
    pub fn has_wake_word(&self) -> (b: bool)
        ensures
            b == self@.wake_word,
    {
        self.wake_word
    }

    /// The voice activity detector, when enabled.
    pub fn vad(&self) -> (v: &Option<VadSystem>)
        ensures
            v is Some <==> self@.vad is Some,
            v matches Some(d) ==> self@.vad == Some(d@),
    {
        &self.vad
    }

    /// Number of samples buffered.
    pub fn buffered_len(&self) -> (n: usize)
        ensures
            n == self@.buffer.len(),
    {
        self.audio_buffer.len()
    }

    /// Rate at which the pipeline analyses audio.
    pub fn sample_rate(&self) -> (r: u32)
        ensures
            r == PIPELINE_SAMPLE_RATE,
    {
        PIPELINE_SAMPLE_RATE
    }

    /// Whether the wake word detector should look at the next chunk: the
    /// pipeline is idle and wake word detection is on.
    pub fn wants_wake_word(&self) -> (b: bool)
        ensures
            b == (self@.state == DialogueState::Idle && self@.wake_word),
    {
        self.wake_word && self.dialogue.state() == DialogueState::Idle
    }

    /// Whether the detector, if any, can take a chunk without a counter
    /// overflowing.
    pub fn accepts(&self, obs: &AudioObservation) -> (b: bool)
        requires
            obs.analysed_len * 1000 <= u32::MAX,
        ensures
            b == vad_fits(self@.vad, *obs),
    {
        match &self.vad {
            Some(v) => {
                let ms = crate::vad::frame_ms(obs.analysed_len, PIPELINE_SAMPLE_RATE);
                v.accepts(obs.is_speech, ms)
            },
            None => true,
        }
    }

    /// Feeds the detector, if any, one chunk and tells whether it counts
    /// the speaker as speaking.
    fn detect_speech(&mut self, obs: &AudioObservation) -> (heard: bool)
        requires
            obs.analysed_len * 1000 <= u32::MAX,
            vad_fits(old(self)@.vad, *obs),
        ensures
            final(self)@ == (PipelineView { vad: vad_after(old(self)@.vad, *obs), ..old(self)@ }),
            heard == hears_speech(vad_after(old(self)@.vad, *obs)),
    {
        let ms = crate::vad::frame_ms(obs.analysed_len, PIPELINE_SAMPLE_RATE);
        match &mut self.vad {
            Some(v) => {
                let s = v.update(obs.is_speech, ms);
                s.is_speaking()
            },
            None => false,
        }
    }

    /// Processes one chunk of audio, captured at `sample_rate`, given what
    /// the detectors found in it.
    ///
    /// - Idle: a wake word (when detection is on) starts listening.
    /// - Listening: the chunk is buffered; speech heard by the detector
    ///   moves on to processing; otherwise the pipeline times out to idle,
    ///   dropping the buffer, when the buffer is longer than its limit or
    ///   the silence heard (chunks without speech since listening started
    ///   or since the last speech chunk) is longer than the silence
    ///   timeout.
    /// - Processing: the buffered audio is handed out and the reply is
    ///   awaited (speaking).
    /// - Speaking: speech heard by the detector interrupts the reply, drops
    ///   the buffer and listens again.
    pub fn process_audio(&mut self, chunk: &[S], sample_rate: u32, obs: &AudioObservation) -> (r:
        Result<Option<PipelineStep<S>>, Error>)
        requires
            old(self).wf(),
            sample_rate > 0,
            obs.analysed_len * 1000 <= u32::MAX,
            vad_fits(old(self)@.vad, *obs),
            old(self)@.buffer.len() + chunk@.len() <= usize::MAX,
        ensures
            r is Ok,
            final(self).wf(),
            final(self)@ == pipeline_after(old(self)@, chunk@, sample_rate, *obs),
            final(self)@.wake_word == old(self)@.wake_word,
            final(self)@.max_buffer_secs == old(self)@.max_buffer_secs,
            final(self)@.silence_timeout_secs == old(self)@.silence_timeout_secs,
            old(self)@.state == DialogueState::Idle ==> {
                &&& final(self)@.vad == old(self)@.vad
                &&& final(self)@.buffer == old(self)@.buffer
                &&& if old(self)@.wake_word && obs.wake_word is Some {
                    &&& final(self)@.state == DialogueState::Listening
                    &&& r matches Ok(Some(PipelineStep::WakeWordDetected { keyword }))
                        && obs.wake_word matches Some(k) && keyword@ == k@
                } else {
                    &&& final(self)@.state == DialogueState::Idle
                    &&& r matches Ok(None)
                }
            },
            old(self)@.state == DialogueState::Listening ==> {
                let buffered = old(self)@.buffer + chunk@;
                let silence = silence_after(old(self)@, *obs);
                &&& final(self)@.vad == vad_after(old(self)@.vad, *obs)
                &&& if hears_speech(vad_after(old(self)@.vad, *obs)) {
                    &&& final(self)@.state == DialogueState::Processing
                    &&& final(self)@.buffer == buffered
                    &&& final(self)@.silence_ms == 0
                    &&& r matches Ok(Some(PipelineStep::SpeechStarted))
                } else if over_limit(
                    buffered.len() as int,
                    sample_rate as int,
                    old(self)@.max_buffer_secs as int,
                ) || silence > timeout_ms(old(self)@) {
                    &&& final(self)@.state == DialogueState::Idle
                    &&& final(self)@.buffer.len() == 0
                    &&& final(self)@.silence_ms == 0
                    &&& r matches Ok(Some(PipelineStep::Idle))
                } else {
                    &&& final(self)@.state == DialogueState::Listening
                    &&& final(self)@.buffer == buffered
                    &&& final(self)@.silence_ms == silence
                    &&& r matches Ok(None)
                }
            },
            old(self)@.state == DialogueState::Processing ==> {
                &&& final(self)@.vad == old(self)@.vad
                &&& final(self)@.state == DialogueState::Speaking
                &&& final(self)@.buffer.len() == 0
                &&& r matches Ok(Some(PipelineStep::SpeechEnded { audio })) && audio@ == old(
                    self,
                )@.buffer
            },
            old(self)@.state == DialogueState::Speaking ==> {
                &&& final(self)@.vad == vad_after(old(self)@.vad, *obs)
                &&& if hears_speech(vad_after(old(self)@.vad, *obs)) {
                    &&& final(self)@.state == DialogueState::Listening
                    &&& final(self)@.buffer.len() == 0
                    &&& r matches Ok(Some(PipelineStep::SpeechStarted))
                } else {
                    &&& final(self)@.state == DialogueState::Speaking
                    &&& final(self)@.buffer == old(self)@.buffer
                    &&& r matches Ok(None)
                }
            },
    {
        let current = self.dialogue.state();
        match current {
            DialogueState::Idle => {
                if self.wake_word {
                    if let Some(k) = &obs.wake_word {
                        self.silence_ms = 0;
                        let _ = self.dialogue.handle_event(DialogueEvent::WakeWordDetected);
                        return Ok(Some(PipelineStep::WakeWordDetected { keyword: k.clone() }));
                    }
                }
                Ok(None)
            },
            DialogueState::Listening => {
                let ghost old_buffer = self.audio_buffer@;
                let ghost v0 = self@;
                let n = chunk.len();
                let mut i: usize = 0;
                while i < n
                    invariant
                        n == chunk@.len(),
                        i <= n,
                        old_buffer.len() + n <= usize::MAX,
                        old_buffer == v0.buffer,
                        self@ == (PipelineView {
                            buffer: old_buffer + chunk@.subrange(0, i as int),
                            ..v0
                        }),
                    decreases n - i,
                {
                    let x = chunk[i];
                    self.audio_buffer.push(x);
                    proof {
                        assert(chunk@.subrange(0, i + 1) =~= chunk@.subrange(0, i as int).push(x));
                    }
                    i = i + 1;
                }
                proof {
                    assert(chunk@.subrange(0, n as int) =~= chunk@);
                }
                if self.detect_speech(obs) {
                    self.silence_ms = 0;
                    let _ = self.dialogue.handle_event(DialogueEvent::SpeechDetected);
                    return Ok(Some(PipelineStep::SpeechStarted));
                }
                let ms = crate::vad::frame_ms(obs.analysed_len, PIPELINE_SAMPLE_RATE);
                let silence: u64 = if obs.is_speech {
                    0
                } else {
                    self.silence_ms + ms as u64
                };
                let timeout: u64 = self.config.silence_timeout_secs as u64 * 1000;
                let max_secs = self.config.max_audio_buffer_secs as usize;
                let buffer_secs = self.audio_buffer.len() / (sample_rate as usize);
                if buffer_secs > max_secs || silence > timeout {
                    self.audio_buffer.clear();
                    self.silence_ms = 0;
                    let _ = self.dialogue.handle_event(DialogueEvent::SilenceTimeout);
                    return Ok(Some(PipelineStep::Idle));
                }
                self.silence_ms = silence;
                Ok(None)
            },
            DialogueState::Processing => {
                let mut captured: Vec<S> = Vec::new();
                std::mem::swap(&mut captured, &mut self.audio_buffer);
                let _ = self.dialogue.handle_event(DialogueEvent::ResponseReady);
                Ok(Some(PipelineStep::SpeechEnded { audio: captured }))
            },
            DialogueState::Speaking => {
                if self.detect_speech(obs) {
                    self.silence_ms = 0;
                    let _ = self.dialogue.handle_event(DialogueEvent::SpeechDetected);
                    self.audio_buffer.clear();
                    return Ok(Some(PipelineStep::SpeechStarted));
                }
                Ok(None)
            },
        }
    }

    /// Push-to-talk: starts listening, with no silence counted yet, without
    /// a wake word; valid only from idle, and otherwise the error of the
    /// dialogue manager.
    pub fn push_to_talk(&mut self) -> (r: Result<(), Error>)
        ensures
            r is Ok <==> old(self)@.state == DialogueState::Idle,
            r is Ok ==> final(self)@ == (PipelineView {
                state: DialogueState::Listening,
                silence_ms: 0,
                ..old(self)@
            }),
            r is Err ==> final(self)@ == old(self)@,
    {
        let r = self.dialogue.handle_event(DialogueEvent::PushToTalkStart);
        if r.is_ok() {
            self.silence_ms = 0;
        }
        r
    }

    /// Stops the pipeline: back to idle with an empty buffer and no silence
    /// counted, from any state.
    pub fn stop(&mut self) -> (r: Result<(), Error>)
        ensures
            r is Ok,
            final(self)@ == (PipelineView {
                state: DialogueState::Idle,
                buffer: Seq::<S>::empty(),
                silence_ms: 0,
                ..old(self)@
            }),
    {
        let r = self.dialogue.handle_event(DialogueEvent::Stop);
        self.audio_buffer.clear();
        self.silence_ms = 0;
        r
    }

    /// The reply has been spoken: back to idle; valid only while speaking.
    pub fn speech_finished(&mut self) -> (r: Result<(), Error>)
        ensures
            r is Ok <==> old(self)@.state == DialogueState::Speaking,
            r is Ok ==> final(self)@ == (PipelineView { state: DialogueState::Idle, ..old(self)@ }),
            r is Err ==> final(self)@ == old(self)@,
    {
        self.dialogue.handle_event(DialogueEvent::SpeechFinished)
    }

    /// Takes the captured audio, leaving the buffer empty.
    pub fn take_audio(&mut self) -> (audio: Vec<S>)
        ensures
            audio@ == old(self)@.buffer,
            final(self)@ == (PipelineView { buffer: Seq::<S>::empty(), ..old(self)@ }),
    {
        let mut audio: Vec<S> = Vec::new();
        std::mem::swap(&mut audio, &mut self.audio_buffer);
        audio
    }
}

} // verus!
