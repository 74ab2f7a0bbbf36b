//! Events that drive the dialogue state machine.

use vstd::prelude::*;

use super::state::DialogueState;

verus! {

/// Something that happened during a dialogue.
#[derive(Debug, Clone, Copy, PartialEq, Eq, Structural)]
pub enum DialogueEvent {
    /// Wake word detected: start listening.
    WakeWordDetected,
    /// Push-to-talk pressed: start listening.
    PushToTalkStart,
    /// Speech detected by voice activity detection.
    SpeechDetected,
    /// No speech for the timeout period.
    SilenceTimeout,
    /// Transcription finished.
    TranscriptionComplete,
    /// The reply is ready to be spoken.
    ResponseReady,
    /// Playback of the reply finished.
    SpeechFinished,
    /// Stop pressed or system reset.
    Stop,
    /// An error happened during processing.
    Error,
}

/// Whether `e` may fire in state `s`.
pub open spec fn valid_from(e: DialogueEvent, s: DialogueState) -> bool {
    match (s, e) {
        (DialogueState::Idle, DialogueEvent::WakeWordDetected) => true,
        (DialogueState::Idle, DialogueEvent::PushToTalkStart) => true,
        (DialogueState::Listening, DialogueEvent::SpeechDetected) => true,
        (DialogueState::Listening, DialogueEvent::SilenceTimeout) => true,
        (DialogueState::Processing, DialogueEvent::ResponseReady) => true,
        (DialogueState::Speaking, DialogueEvent::SpeechFinished) => true,
        (DialogueState::Speaking, DialogueEvent::SpeechDetected) => true,
        (_, DialogueEvent::Error) => true,
        (_, DialogueEvent::Stop) => true,
        _ => false,
    }
}

/// Display name of an event.
pub open spec fn event_name(e: DialogueEvent) -> Seq<char> {
    match e {
        DialogueEvent::WakeWordDetected => "WakeWordDetected"@,
        DialogueEvent::PushToTalkStart => "PushToTalkStart"@,
        DialogueEvent::SpeechDetected => "SpeechDetected"@,
        DialogueEvent::SilenceTimeout => "SilenceTimeout"@,
        DialogueEvent::TranscriptionComplete => "TranscriptionComplete"@,
        DialogueEvent::ResponseReady => "ResponseReady"@,
        DialogueEvent::SpeechFinished => "SpeechFinished"@,
        DialogueEvent::Stop => "Stop"@,
        DialogueEvent::Error => "Error"@,
    }
}

impl DialogueEvent {
    /// Whether this event can trigger a transition from `state`.
    pub fn is_valid_from(&self, state: DialogueState) -> (b: bool)
        ensures
            b == valid_from(*self, state),
    {
        match (state, self) {
            (DialogueState::Idle, DialogueEvent::WakeWordDetected) => true,
            (DialogueState::Idle, DialogueEvent::PushToTalkStart) => true,
            (DialogueState::Listening, DialogueEvent::SpeechDetected) => true,
            (DialogueState::Listening, DialogueEvent::SilenceTimeout) => true,
            (DialogueState::Listening, DialogueEvent::Stop) => true,
            (DialogueState::Processing, DialogueEvent::ResponseReady) => true,
            (DialogueState::Processing, DialogueEvent::Error) => true,
            (DialogueState::Processing, DialogueEvent::Stop) => true,
            (DialogueState::Speaking, DialogueEvent::SpeechFinished) => true,
            (DialogueState::Speaking, DialogueEvent::SpeechDetected) => true,
            (DialogueState::Speaking, DialogueEvent::Stop) => true,
            (_, DialogueEvent::Error) => true,
            (_, DialogueEvent::Stop) => true,
            _ => false,
        }
    }

    /// Name of the event, as it is displayed.
    pub fn name(&self) -> (s: &'static str)
        ensures
            s@ == event_name(*self),
    {
        match self {
            DialogueEvent::WakeWordDetected => "WakeWordDetected",
            DialogueEvent::PushToTalkStart => "PushToTalkStart",
            DialogueEvent::SpeechDetected => "SpeechDetected",
            DialogueEvent::SilenceTimeout => "SilenceTimeout",
            DialogueEvent::TranscriptionComplete => "TranscriptionComplete",
            DialogueEvent::ResponseReady => "ResponseReady",
            DialogueEvent::SpeechFinished => "SpeechFinished",
            DialogueEvent::Stop => "Stop",
            DialogueEvent::Error => "Error",
        }
    }
}

} // verus!
