//! Capture settings, the capture front end and input device descriptions.

use vstd::prelude::*;

use super::backends::{backend_available, selected_backend, AudioSystem, BackendProbe};
use crate::error::Error;

verus! {

/// Rate at which captured audio is delivered, whichever backend captured it.
pub const CAPTURE_SAMPLE_RATE: u32 = 44100;

/// Capture configuration.
#[derive(Debug, Clone)]
pub struct CaptureConfig {
    /// Sample rate (16000 for Whisper by default).
    pub sample_rate: u32,
    /// Number of channels (mono by default).
    pub channels: u16,
}

impl Default for CaptureConfig {
    fn default() -> (c: Self)
        ensures
            c.sample_rate == 16000,
            c.channels == 1,
    {
        CaptureConfig { sample_rate: 16000, channels: 1 }
    }
}

/// Captures audio from the microphone through the selected audio system.
#[derive(Debug)]
pub struct AudioCapture;

impl AudioCapture {
    /// Creates the capture front end; this always succeeds.
    pub fn new() -> (r: Result<Self, Error>)
        ensures
            r is Ok,
    {
        Ok(AudioCapture)
    }

    /// Whether a microphone is available: the audio system selected from
    /// the probe reports itself available.
    pub fn is_available(probe: &BackendProbe) -> (b: bool)
        ensures
            b == backend_available(selected_backend(*probe), *probe),
    {
        let system = AudioSystem::new(probe);
        system.is_available(probe)
    }
}

impl Default for AudioCapture {
    fn default() -> (c: Self) {
        AudioCapture
    }
}

/// Information about an audio input device.
#[derive(Debug, Clone)]
pub struct AudioDeviceInfo {
    /// Device name.
    pub name: String,
    /// Whether this is the default input device.
    pub is_default: bool,
}

} // verus!
