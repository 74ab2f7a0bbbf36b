//! Audio: backend selection, the audio engine, diagnostics, WAV framing and
//! capture settings. Devices themselves are driven by the application; the
//! library decides from what probing them found.

pub mod backends;
pub mod capture;
pub mod diagnostics;
pub mod engine;
pub mod wav;

pub use backends::{AudioError, AudioSystem, BackendProbe, BackendType};
pub use capture::{AudioCapture, AudioDeviceInfo, CaptureConfig, CAPTURE_SAMPLE_RATE};
pub use engine::{AudioChunk, AudioEngine};
