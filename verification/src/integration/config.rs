//! Pipeline configuration.

use vstd::prelude::*;

use crate::vad::VadTiming;

verus! {

/// Voice pipeline configuration: which components are enabled and their
/// settings.
#[derive(Debug, Clone)]
pub struct PipelineConfig {
    /// Enable wake word detection (default: true).
    pub enable_wake_word: bool,
    /// Enable voice activity detection (default: true); without it the
    /// pipeline needs push-to-talk.
    pub enable_vad: bool,
    /// Voice activity detection timing (default timing when absent).
    pub vad_timing: Option<VadTiming>,
    /// Silence timeout in seconds (default: 3).
    pub silence_timeout_secs: u32,
    /// Longest audio buffered while listening, in seconds (default: 30).
    pub max_audio_buffer_secs: u32,
}

impl Default for PipelineConfig {
    fn default() -> (c: Self)
        ensures
            c.enable_wake_word,
            c.enable_vad,
            c.vad_timing is None,
            c.silence_timeout_secs == 3,
            c.max_audio_buffer_secs == 30,
    {
        PipelineConfig {
            enable_wake_word: true,
            enable_vad: true,
            vad_timing: None,
            silence_timeout_secs: 3,
            max_audio_buffer_secs: 30,
        }
    }
}

} // verus!
