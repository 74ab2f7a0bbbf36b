//! The dialogue manager: applies events to the dialogue state.

use vstd::prelude::*;

use super::events::{event_name, valid_from, DialogueEvent};
use super::state::{state_name, DialogueState};
use crate::error::Error;

verus! {

/// The state an event leads to. Stop and Error always lead to `Idle`; an
/// event that is not valid from `s` leaves it unchanged.
pub open spec fn next_state(s: DialogueState, e: DialogueEvent) -> DialogueState {
    match (s, e) {
        (_, DialogueEvent::Stop) => DialogueState::Idle,
        (_, DialogueEvent::Error) => DialogueState::Idle,
        (DialogueState::Idle, DialogueEvent::WakeWordDetected) => DialogueState::Listening,
        (DialogueState::Idle, DialogueEvent::PushToTalkStart) => DialogueState::Listening,
        (DialogueState::Listening, DialogueEvent::SpeechDetected) => DialogueState::Processing,
        (DialogueState::Listening, DialogueEvent::SilenceTimeout) => DialogueState::Idle,
        (DialogueState::Processing, DialogueEvent::ResponseReady) => DialogueState::Speaking,
        (DialogueState::Speaking, DialogueEvent::SpeechDetected) => DialogueState::Listening,
        (DialogueState::Speaking, DialogueEvent::SpeechFinished) => DialogueState::Idle,
        _ => s,
    }
}

/// The message of the error for an event that is not valid from a state.
pub open spec fn invalid_transition_message(s: DialogueState, e: DialogueEvent) -> Seq<char> {
    "Invalid transition: "@ + event_name(e) + " from "@ + state_name(s)
}

/// Manages the flow of a voice interaction.
///
/// - Idle -> Listening: wake word or push-to-talk
/// - Listening -> Processing: speech detected
/// - Listening -> Idle: silence timeout
/// - Processing -> Speaking: response ready
/// - Speaking -> Idle: speech finished
/// - Speaking -> Listening: the user interrupts
/// - any state -> Idle: stop or error
#[derive(Debug)]
pub struct DialogueManager {
    state: DialogueState,
}

impl View for DialogueManager {
    type V = DialogueState;

    closed spec fn view(&self) -> DialogueState {
        self.state
    }
}

impl Default for DialogueManager {
    fn default() -> (m: Self)
        ensures
            m@ == DialogueState::Idle,
    {
        Self::new()
    }
}

impl DialogueManager {
    /// A manager in the `Idle` state.
    pub fn new() -> (m: Self)
        ensures
            m@ == DialogueState::Idle,
    {
        Self { state: DialogueState::Idle }
    }

    /// The current state.
    pub fn state(&self) -> (s: DialogueState)
        ensures
            s == self@,
    {
        self.state
    }

    /// Whether the current state can be interrupted (only `Speaking`).
    pub fn can_interrupt(&self) -> (b: bool)
        ensures
            b <==> self@ == DialogueState::Speaking,
    {
        self.state.can_interrupt()
    }

    /// Whether the current state is active (not `Idle`).
    pub fn is_active(&self) -> (b: bool)
        ensures
            b <==> self@ != DialogueState::Idle,
    {
        self.state.is_active()
    }

    /// Applies an event.
    ///
    /// Stop and Error always succeed and lead to `Idle`. Any other event
    /// succeeds exactly when it is valid from the current state; otherwise
    /// the state is unchanged and an internal error names the event and
    /// the state.
    pub fn handle_event(&mut self, event: DialogueEvent) -> (r: Result<(), Error>)
        ensures
            r is Ok <==> valid_from(event, old(self)@),
            final(self)@ == next_state(old(self)@, event),
            r matches Err(e) ==> (e matches Error::Internal(m) && m@ == invalid_transition_message(
                old(self)@,
                event,
            )),
    {
        if event == DialogueEvent::Stop {
            self.state = DialogueState::Idle;
            return Ok(());
        }
        if event == DialogueEvent::Error {
            self.state = DialogueState::Idle;
            return Ok(());
        }
        if !event.is_valid_from(self.state) {
            let msg = String::from_str("Invalid transition: ").concat(event.name()).concat(
                " from ",
            ).concat(self.state.name());
            return Err(Error::Internal(msg));
        }
        self.state = self.transition(event);
        Ok(())
    }

    /// The state a valid event leads to; Stop and Error, valid from every
    /// state, lead to `Idle`.
    fn transition(&self, event: DialogueEvent) -> (s: DialogueState)
        requires
            valid_from(event, self@),
        ensures
            s == next_state(self@, event),
    {
        match (self.state, event) {
            (_, DialogueEvent::Stop) => DialogueState::Idle,
            (_, DialogueEvent::Error) => DialogueState::Idle,
            (DialogueState::Idle, DialogueEvent::WakeWordDetected) => DialogueState::Listening,
            (DialogueState::Idle, DialogueEvent::PushToTalkStart) => DialogueState::Listening,
            (DialogueState::Listening, DialogueEvent::SpeechDetected) => DialogueState::Processing,
            (DialogueState::Listening, DialogueEvent::SilenceTimeout) => DialogueState::Idle,
            (DialogueState::Processing, DialogueEvent::ResponseReady) => DialogueState::Speaking,
            (DialogueState::Speaking, DialogueEvent::SpeechDetected) => DialogueState::Listening,
            (DialogueState::Speaking, DialogueEvent::SpeechFinished) => DialogueState::Idle,
            _ => {
                proof {
                    assert(false);
                }
                self.state
            },
        }
    }
}



/// Stop and Error are valid from every state and always return the dialogue
/// to `Idle`.
pub proof fn lemma_stop_and_error_always_reset(s: DialogueState)
    ensures
        valid_from(DialogueEvent::Stop, s),
        valid_from(DialogueEvent::Error, s),
        next_state(s, DialogueEvent::Stop) == DialogueState::Idle,
        next_state(s, DialogueEvent::Error) == DialogueState::Idle,
{
}

/// An event that is not valid from a state leaves that state unchanged.
pub proof fn lemma_invalid_event_keeps_state(s: DialogueState, e: DialogueEvent)
    requires
        !valid_from(e, s),
    ensures
        next_state(s, e) == s,
{
}

/// No transition skips a phase: `Processing` is entered only from
/// `Listening` on speech, and `Speaking` only from `Processing` on a ready
/// response; from `Idle` the dialogue can only reach `Listening`.
pub proof fn lemma_no_phase_is_skipped(s: DialogueState, e: DialogueEvent)
    ensures
        next_state(s, e) == DialogueState::Processing && s != DialogueState::Processing ==> (s
            == DialogueState::Listening && e == DialogueEvent::SpeechDetected),
        next_state(s, e) == DialogueState::Speaking && s != DialogueState::Speaking ==> (s
            == DialogueState::Processing && e == DialogueEvent::ResponseReady),
        s == DialogueState::Idle ==> (next_state(s, e) == DialogueState::Idle || next_state(s, e)
            == DialogueState::Listening),
{
}

/// Speech while the assistant is speaking interrupts it and returns to
/// `Listening`; it is the only state that can be interrupted this way.
pub proof fn lemma_interruption_returns_to_listening(s: DialogueState)
    ensures
        valid_from(DialogueEvent::SpeechDetected, s) <==> (s == DialogueState::Listening || s
            == DialogueState::Speaking),
        s == DialogueState::Speaking ==> next_state(s, DialogueEvent::SpeechDetected)
            == DialogueState::Listening,
{
}

/// A transcription-complete event never moves the dialogue: it is not a
/// valid transition from any state.
pub proof fn lemma_transcription_complete_never_valid(s: DialogueState)
    ensures
        !valid_from(DialogueEvent::TranscriptionComplete, s),
        next_state(s, DialogueEvent::TranscriptionComplete) == s,
{
}

/// Each event fires only where the dialogue can use it: a wake word or
/// push-to-talk only from `Idle`, a silence timeout only while listening, a
/// ready response only while processing, the end of playback only while
/// speaking. So `Listening` is entered only from `Idle` on a wake word or
/// push-to-talk, or from `Speaking` when the user interrupts.
pub proof fn lemma_events_fire_only_where_they_belong(s: DialogueState, e: DialogueEvent)
    ensures
        valid_from(DialogueEvent::WakeWordDetected, s) <==> s == DialogueState::Idle,
        valid_from(DialogueEvent::PushToTalkStart, s) <==> s == DialogueState::Idle,
        valid_from(DialogueEvent::SilenceTimeout, s) <==> s == DialogueState::Listening,
        valid_from(DialogueEvent::ResponseReady, s) <==> s == DialogueState::Processing,
        valid_from(DialogueEvent::SpeechFinished, s) <==> s == DialogueState::Speaking,
        next_state(s, e) == DialogueState::Listening && s != DialogueState::Listening ==> ((s
            == DialogueState::Idle && (e == DialogueEvent::WakeWordDetected || e
            == DialogueEvent::PushToTalkStart)) || (s == DialogueState::Speaking && e
            == DialogueEvent::SpeechDetected)),
{
}

} // verus!
