//! The audio engine: a thin owner of the audio system.

use vstd::prelude::*;

use super::backends::{
    backend_available, backend_type_name, selected_backend, unavailable_reason, AudioError,
    AudioSystem,
    BackendProbe, BackendType,
};

verus! {

/// Audio chunk of 16-bit samples.
#[derive(Debug, Clone)]
pub struct AudioChunk {
    /// Samples.
    pub samples: Vec<i16>,
    /// Sample rate, typically 16000 or 24000.
    pub sample_rate: u32,
    /// Channels, typically 1.
    pub channels: u16,
}

impl AudioChunk {
    /// A chunk of the given samples.
    pub fn new(samples: Vec<i16>, sample_rate: u32, channels: u16) -> (c: Self)
        ensures
            c.samples@ == samples@,
            c.sample_rate == sample_rate,
            c.channels == channels,
    {
        Self { samples, sample_rate, channels }
    }
}

/// Audio engine for capture and playback.
#[derive(Debug)]
pub struct AudioEngine {
    audio: AudioSystem,
}

impl View for AudioEngine {
    type V = BackendType;

    closed spec fn view(&self) -> BackendType {
        self.audio.kind()
    }
}

impl AudioEngine {
    /// An engine on the backend selected from the probe.
    pub fn new(probe: &BackendProbe) -> (e: Self)
        ensures
            e@ == selected_backend(*probe),
    {
        Self { audio: AudioSystem::new(probe) }
    }

    /// An engine on a given backend.
    pub fn with_backend(backend: BackendType, probe: &BackendProbe) -> (r: Result<
        Self,
        AudioError,
    >)
        ensures
            r matches Ok(e) ==> e@ == backend,
            r is Err <==> unavailable_reason(backend, *probe) is Some,
            r matches Err(e) ==> (e matches AudioError::NotAvailable(m) && unavailable_reason(
                backend,
                *probe,
            ) == Some(m@)),
    {
        match AudioSystem::with_backend(backend, probe) {
            Ok(audio) => Ok(Self { audio }),
            Err(e) => Err(e),
        }
    }

    /// The audio system.
    pub fn audio_system(&self) -> (s: &AudioSystem)
        ensures
            s.kind() == self@,
    {
        &self.audio
    }

    /// The audio system, mutably.
    pub fn audio_system_mut(&mut self) -> (s: &mut AudioSystem)
        ensures
            s.kind() == old(self)@,
            final(self)@ == final(s).kind(),
    {
        &mut self.audio
    }

    /// Name of the backend.
    pub fn backend_name(&self) -> (s: &'static str)
        ensures
            s@ == backend_type_name(self@),
    {
        self.audio.backend_name()
    }

    /// Whether audio is available.
    pub fn is_available(&self, probe: &BackendProbe) -> (b: bool)
        ensures
            b == backend_available(self@, *probe),
    {
        self.audio.is_available(probe)
    }
}

} // verus!
