//! The voice pipeline: wake word, voice activity detection and the dialogue
//! state machine put together. Detectors that analyse samples run in the
//! application; the pipeline decides from what they found.

pub mod config;
pub mod pipeline;

pub use config::PipelineConfig;
pub use pipeline::{AudioObservation, PipelineStep, VoicePipeline};
