//! Error types of the library.

use vstd::prelude::*;

verus! {

/// Opaque I/O error, carried through from the platform.
#[verifier::external_type_specification]
#[verifier::external_body]
pub struct ExIoError(std::io::Error);

/// Errors of the library.
#[derive(Debug)]
pub enum Error {
    /// Audio device not found or unavailable.
    AudioDevice(String),
    /// Speech synthesis failed.
    TtsSynthesis(String),
    /// Transcription failed.
    SttTranscription(String),
    /// Unknown voice.
    VoiceNotFound(String),
    /// Configuration error.
    Config(String),
    /// Initialization failed.
    Init(String),
    /// Playback error.
    Playback(String),
    /// Voice activity detection error.
    VadError(String),
    /// Network error.
    Network(String),
    /// I/O error.
    Io(std::sync::Arc<std::io::Error>),
    /// Internal error.
    Internal(String),
}

/// Result type of the library.
pub type Result<T> = std::result::Result<T, Error>;

/// Whether an error of this kind is recoverable.
pub open spec fn recoverable(e: Error) -> bool {
    match e {
        Error::AudioDevice(_) | Error::VoiceNotFound(_) | Error::Config(_) => true,
        _ => false,
    }
}

/// The message shown to the user for an error of this kind.
pub open spec fn user_message_of(e: Error) -> Seq<char> {
    match e {
        Error::AudioDevice(_) => "I had trouble with audio. Is my microphone working?"@,
        Error::TtsSynthesis(_) => "I had trouble finding the right words. Let me try again!"@,
        Error::SttTranscription(_) => "I didn't quite catch that. Could you repeat?"@,
        Error::VoiceNotFound(_) => "I don't know that voice. Let me show you the ones I do know!"@,
        Error::Config(_) => "Something's not set up right. Let me check..."@,
        Error::Init(_) => "I'm having trouble starting up. Give me a moment!"@,
        Error::Playback(_) => "I can't play audio right now. Let me try again!"@,
        Error::VadError(_) => "I'm having trouble detecting speech. Let me try again!"@,
        Error::Network(_) => "I can't connect to the network. Let me try again!"@,
        Error::Io(_) => "I had trouble reading or writing a file. Let me try again!"@,
        Error::Internal(_) => "Oops! Something went wrong, but I'm still here!"@,
    }
}

impl Error {
    /// Whether the error is recoverable: audio device, unknown voice and
    /// configuration errors are.
    pub fn is_recoverable(&self) -> (b: bool)
        ensures
            b == recoverable(*self),
    {
        match self {
            Error::AudioDevice(_) | Error::VoiceNotFound(_) | Error::Config(_) => true,
            _ => false,
        }
    }

    /// A friendly message for the user.
    pub fn user_message(&self) -> (s: &'static str)
        ensures
            s@ == user_message_of(*self),
    {
        match self {
            Error::AudioDevice(_) => "I had trouble with audio. Is my microphone working?",
            Error::TtsSynthesis(_) => "I had trouble finding the right words. Let me try again!",
            Error::SttTranscription(_) => "I didn't quite catch that. Could you repeat?",
            Error::VoiceNotFound(_) => "I don't know that voice. Let me show you the ones I do know!",
            Error::Config(_) => "Something's not set up right. Let me check...",
            Error::Init(_) => "I'm having trouble starting up. Give me a moment!",
            Error::Playback(_) => "I can't play audio right now. Let me try again!",
            Error::VadError(_) => "I'm having trouble detecting speech. Let me try again!",
            Error::Network(_) => "I can't connect to the network. Let me try again!",
            Error::Io(_) => "I had trouble reading or writing a file. Let me try again!",
            Error::Internal(_) => "Oops! Something went wrong, but I'm still here!",
        }
    }
}

} // verus!
