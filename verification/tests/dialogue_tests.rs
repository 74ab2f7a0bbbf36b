use thaleia::pipeline::{DialogueEvent, DialogueManager, DialogueState};
use thaleia::Error;
use thaleia::pipeline::DialogueState::{Idle, Listening, Processing, Speaking};

// ---- events ----

#[test]
fn test_valid_wake_word_from_idle() {
    assert!(DialogueEvent::WakeWordDetected.is_valid_from(Idle));
    assert!(DialogueEvent::PushToTalkStart.is_valid_from(Idle));
}

#[test]
fn test_valid_from_listening() {
    assert!(DialogueEvent::SpeechDetected.is_valid_from(Listening));
    assert!(DialogueEvent::SilenceTimeout.is_valid_from(Listening));
    assert!(DialogueEvent::Stop.is_valid_from(Listening));
}

#[test]
fn test_valid_from_processing() {
    assert!(DialogueEvent::ResponseReady.is_valid_from(Processing));
    assert!(DialogueEvent::Error.is_valid_from(Processing));
    assert!(DialogueEvent::Stop.is_valid_from(Processing));
}

#[test]
fn test_valid_from_speaking() {
    assert!(DialogueEvent::SpeechFinished.is_valid_from(Speaking));
    assert!(DialogueEvent::SpeechDetected.is_valid_from(Speaking));
    assert!(DialogueEvent::Stop.is_valid_from(Speaking));
}

#[test]
fn test_invalid_transitions() {
    assert!(!DialogueEvent::SpeechDetected.is_valid_from(Idle));
    assert!(!DialogueEvent::ResponseReady.is_valid_from(Idle));
    assert!(!DialogueEvent::ResponseReady.is_valid_from(Listening));
    assert!(!DialogueEvent::SilenceTimeout.is_valid_from(Processing));
}

#[test]
fn test_error_and_stop_always_valid() {
    for state in [Idle, Listening, Processing, Speaking] {
        assert!(DialogueEvent::Error.is_valid_from(state));
        assert!(DialogueEvent::Stop.is_valid_from(state));
    }
}

#[test]
fn events_test_display() {
    assert_eq!(DialogueEvent::WakeWordDetected.name(), "WakeWordDetected");
    assert_eq!(DialogueEvent::SpeechFinished.name(), "SpeechFinished");
}

// ---- manager ----

#[test]
fn test_new_manager_is_idle() {
    let manager = DialogueManager::new();
    assert_eq!(manager.state(), DialogueState::Idle);
}

#[test]
fn manager_test_is_active() {
    let mut manager = DialogueManager::new();
    assert!(!manager.is_active());
    manager.handle_event(DialogueEvent::WakeWordDetected).unwrap();
    assert!(manager.is_active());
    manager.handle_event(DialogueEvent::SpeechDetected).unwrap();
    assert!(manager.is_active());
    manager.handle_event(DialogueEvent::ResponseReady).unwrap();
    assert!(manager.is_active());
    manager.handle_event(DialogueEvent::SpeechFinished).unwrap();
    assert!(!manager.is_active());
}

#[test]
fn test_interruption_preserves_audio_context() {
    let mut manager = DialogueManager::new();
    manager.handle_event(DialogueEvent::WakeWordDetected).unwrap();
    manager.handle_event(DialogueEvent::SpeechDetected).unwrap();
    manager.handle_event(DialogueEvent::ResponseReady).unwrap();
    assert_eq!(manager.state(), DialogueState::Speaking);
    manager.handle_event(DialogueEvent::SpeechDetected).unwrap();
    assert_eq!(manager.state(), DialogueState::Listening);
}

#[test]
fn test_full_conversation_flow() {
    let mut manager = DialogueManager::new();
    manager.handle_event(DialogueEvent::WakeWordDetected).unwrap();
    assert_eq!(manager.state(), DialogueState::Listening);
    manager.handle_event(DialogueEvent::SpeechDetected).unwrap();
    assert_eq!(manager.state(), DialogueState::Processing);
    manager.handle_event(DialogueEvent::ResponseReady).unwrap();
    assert_eq!(manager.state(), DialogueState::Speaking);
    manager.handle_event(DialogueEvent::SpeechFinished).unwrap();
    assert_eq!(manager.state(), DialogueState::Idle);
}

#[test]
fn test_push_to_talk_flow() {
    let mut manager = DialogueManager::new();
    manager.handle_event(DialogueEvent::PushToTalkStart).unwrap();
    assert_eq!(manager.state(), DialogueState::Listening);
    manager.handle_event(DialogueEvent::SpeechDetected).unwrap();
    assert_eq!(manager.state(), DialogueState::Processing);
}

#[test]
fn test_silence_timeout() {
    let mut manager = DialogueManager::new();
    manager.handle_event(DialogueEvent::WakeWordDetected).unwrap();
    assert_eq!(manager.state(), DialogueState::Listening);
    manager.handle_event(DialogueEvent::SilenceTimeout).unwrap();
    assert_eq!(manager.state(), DialogueState::Idle);
}

fn run_stop_from_every_state() {
    let mut manager = DialogueManager::new();
    manager.handle_event(DialogueEvent::Stop).unwrap();
    assert_eq!(manager.state(), DialogueState::Idle);

    manager.handle_event(DialogueEvent::WakeWordDetected).unwrap();
    manager.handle_event(DialogueEvent::Stop).unwrap();
    assert_eq!(manager.state(), DialogueState::Idle);

    manager.handle_event(DialogueEvent::WakeWordDetected).unwrap();
    manager.handle_event(DialogueEvent::SpeechDetected).unwrap();
    manager.handle_event(DialogueEvent::Stop).unwrap();
    assert_eq!(manager.state(), DialogueState::Idle);

    manager.handle_event(DialogueEvent::WakeWordDetected).unwrap();
    manager.handle_event(DialogueEvent::SpeechDetected).unwrap();
    manager.handle_event(DialogueEvent::ResponseReady).unwrap();
    manager.handle_event(DialogueEvent::Stop).unwrap();
    assert_eq!(manager.state(), DialogueState::Idle);
}

#[test]
fn test_stop_from_any_state() {
    run_stop_from_every_state();
}

#[test]
fn test_error_from_any_state() {
    let mut manager = DialogueManager::new();
    manager.handle_event(DialogueEvent::WakeWordDetected).unwrap();
    manager.handle_event(DialogueEvent::Error).unwrap();
    assert_eq!(manager.state(), DialogueState::Idle);
}

// ---- state machine as a whole ----

#[test]
fn test_initial_state_is_idle() {
    let manager = DialogueManager::new();
    assert_eq!(manager.state(), DialogueState::Idle);
}

#[test]
fn test_wake_word_transitions_to_listening() {
    let mut manager = DialogueManager::new();
    manager.handle_event(DialogueEvent::WakeWordDetected).unwrap();
    assert_eq!(manager.state(), DialogueState::Listening);
}

#[test]
fn test_push_to_talk_transitions_to_listening() {
    let mut manager = DialogueManager::new();
    manager.handle_event(DialogueEvent::PushToTalkStart).unwrap();
    assert_eq!(manager.state(), DialogueState::Listening);
}

#[test]
fn test_speech_detected_transitions_to_processing() {
    let mut manager = DialogueManager::new();
    manager.handle_event(DialogueEvent::WakeWordDetected).unwrap();
    assert_eq!(manager.state(), DialogueState::Listening);
    manager.handle_event(DialogueEvent::SpeechDetected).unwrap();
    assert_eq!(manager.state(), DialogueState::Processing);
}

#[test]
fn test_response_ready_transitions_to_speaking() {
    let mut manager = DialogueManager::new();
    manager.handle_event(DialogueEvent::WakeWordDetected).unwrap();
    manager.handle_event(DialogueEvent::SpeechDetected).unwrap();
    assert_eq!(manager.state(), DialogueState::Processing);
    manager.handle_event(DialogueEvent::ResponseReady).unwrap();
    assert_eq!(manager.state(), DialogueState::Speaking);
}

#[test]
fn mod_test_speech_finished_transitions_to_idle() {
    let mut manager = DialogueManager::new();
    manager.handle_event(DialogueEvent::WakeWordDetected).unwrap();
    manager.handle_event(DialogueEvent::SpeechDetected).unwrap();
    manager.handle_event(DialogueEvent::ResponseReady).unwrap();
    assert_eq!(manager.state(), DialogueState::Speaking);
    manager.handle_event(DialogueEvent::SpeechFinished).unwrap();
    assert_eq!(manager.state(), DialogueState::Idle);
}

#[test]
fn pipeline_test_speech_finished_transitions_to_idle() {
    let mut dialogue = DialogueManager::new();
    dialogue.handle_event(DialogueEvent::PushToTalkStart).unwrap();
    assert_eq!(dialogue.state(), DialogueState::Listening);
    dialogue.handle_event(DialogueEvent::SpeechDetected).unwrap();
    assert_eq!(dialogue.state(), DialogueState::Processing);
    dialogue.handle_event(DialogueEvent::ResponseReady).unwrap();
    assert_eq!(dialogue.state(), DialogueState::Speaking);
    dialogue.handle_event(DialogueEvent::SpeechFinished).unwrap();
    assert_eq!(dialogue.state(), DialogueState::Idle);
}

#[test]
fn test_interruption_during_speaking_transitions_to_listening() {
    let mut manager = DialogueManager::new();
    manager.handle_event(DialogueEvent::WakeWordDetected).unwrap();
    manager.handle_event(DialogueEvent::SpeechDetected).unwrap();
    manager.handle_event(DialogueEvent::ResponseReady).unwrap();
    assert_eq!(manager.state(), DialogueState::Speaking);
    manager.handle_event(DialogueEvent::SpeechDetected).unwrap();
    assert_eq!(manager.state(), DialogueState::Listening);
}

#[test]
fn test_silence_timeout_transitions_to_idle() {
    let mut manager = DialogueManager::new();
    manager.handle_event(DialogueEvent::WakeWordDetected).unwrap();
    assert_eq!(manager.state(), DialogueState::Listening);
    manager.handle_event(DialogueEvent::SilenceTimeout).unwrap();
    assert_eq!(manager.state(), DialogueState::Idle);
}

#[test]
fn test_invalid_transition_returns_error() {
    let mut manager = DialogueManager::new();
    let result = manager.handle_event(DialogueEvent::SpeechDetected);
    assert!(result.is_err());
}

#[test]
fn test_stop_event_transitions_to_idle() {
    run_stop_from_every_state();
}

#[test]
fn test_can_interrupt() {
    let mut manager = DialogueManager::new();
    assert!(!manager.can_interrupt());
    manager.handle_event(DialogueEvent::WakeWordDetected).unwrap();
    assert!(!manager.can_interrupt());
    manager.handle_event(DialogueEvent::SpeechDetected).unwrap();
    assert!(!manager.can_interrupt());
    manager.handle_event(DialogueEvent::ResponseReady).unwrap();
    assert!(manager.can_interrupt());
}

// ---- states ----

#[test]
fn test_default_is_idle() {
    assert_eq!(DialogueState::default(), DialogueState::Idle);
}

#[test]
fn test_can_interrupt_only_speaking() {
    assert!(!DialogueState::Idle.can_interrupt());
    assert!(!DialogueState::Listening.can_interrupt());
    assert!(!DialogueState::Processing.can_interrupt());
    assert!(DialogueState::Speaking.can_interrupt());
}

#[test]
fn state_test_is_active() {
    assert!(!DialogueState::Idle.is_active());
    assert!(DialogueState::Listening.is_active());
    assert!(DialogueState::Processing.is_active());
    assert!(DialogueState::Speaking.is_active());
}

#[test]
fn state_test_display() {
    assert_eq!(DialogueState::Idle.name(), "Idle");
    assert_eq!(DialogueState::Listening.name(), "Listening");
    assert_eq!(DialogueState::Processing.name(), "Processing");
    assert_eq!(DialogueState::Speaking.name(), "Speaking");
}

// ---- laws on concrete values ----

#[test]
fn invalid_event_keeps_state_and_names_it() {
    let mut manager = DialogueManager::new();
    manager.handle_event(DialogueEvent::PushToTalkStart).unwrap();
    let result = manager.handle_event(DialogueEvent::ResponseReady);
    match result {
        Err(Error::Internal(m)) => {
            assert_eq!(m, "Invalid transition: ResponseReady from Listening")
        }
        _ => panic!("expected an internal error"),
    }
    assert_eq!(manager.state(), DialogueState::Listening);
}

#[test]
fn transcription_complete_is_never_valid() {
    for state in [Idle, Listening, Processing, Speaking] {
        assert!(!DialogueEvent::TranscriptionComplete.is_valid_from(state));
        let mut manager = DialogueManager::new();
        assert!(manager.handle_event(DialogueEvent::TranscriptionComplete).is_err());
    }
}
