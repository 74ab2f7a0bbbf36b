//! Thaleia, a local voice assistant: the logic of its dialogue state
//! machine, voice activity detection and voice pipeline, session memory and
//! tool server, audio backend selection and WAV framing, speech types and
//! text handling, each with a machine-checked contract. Devices, models and
//! the network are driven by the program around the library.

pub mod error;
pub mod pipeline;
pub mod text;
pub mod mcp;
pub mod audio;
pub mod vad;
pub mod integration;
pub mod stt;
pub mod tts;
pub mod download;
pub mod wake_word;
pub mod debug;

pub use error::{Error, Result};

use vstd::prelude::*;

verus! {

/// Library version.
pub const VERSION: &'static str = "0.1.0";

} // verus!
