//! Audio backends and the selection among them.
//!
//! Backends are tried in this order: SDL2 (PulseAudio), Rodio (ALSA), and
//! finally none (file-only mode).

use vstd::prelude::*;

verus! {

/// Audio errors.
#[derive(Debug)]
pub enum AudioError {
    /// The backend is not available.
    NotAvailable(String),
    /// Playback failed.
    PlaybackFailed(String),
    /// Capture failed.
    CaptureFailed(String),
    /// Backend error.
    Backend(String),
    /// No audio backend is available.
    NoBackend,
}

/// Display text of an audio error.
pub open spec fn audio_error_text(e: AudioError) -> Seq<char> {
    match e {
        AudioError::NotAvailable(s) => "Backend not available: "@ + s@,
        AudioError::PlaybackFailed(s) => "Playback failed: "@ + s@,
        AudioError::CaptureFailed(s) => "Capture failed: "@ + s@,
        AudioError::Backend(s) => "Backend error: "@ + s@,
        AudioError::NoBackend => "No audio backend available"@,
    }
}

impl AudioError {
    /// The text of the error, as it is displayed.
    pub fn message(&self) -> (m: String)
        ensures
            m@ == audio_error_text(*self),
    {
        match self {
            AudioError::NotAvailable(s) => String::from_str("Backend not available: ").concat(
                s.as_str(),
            ),
            AudioError::PlaybackFailed(s) => String::from_str("Playback failed: ").concat(
                s.as_str(),
            ),
            AudioError::CaptureFailed(s) => String::from_str("Capture failed: ").concat(
                s.as_str(),
            ),
            AudioError::Backend(s) => String::from_str("Backend error: ").concat(s.as_str()),
            AudioError::NoBackend => String::from_str("No audio backend available"),
        }
    }
}

/// Kind of audio backend.
#[derive(Debug, Clone, Copy, PartialEq, Eq, Structural)]
pub enum BackendType {
    /// No backend: file-only mode.
    FileOnly,
    /// Rodio/cpal (ALSA).
    Rodio,
    /// SDL2 (PulseAudio).
    SDL2,
}

/// What probing the audio devices found.
#[derive(Debug, Clone)]
pub struct BackendProbe {
    /// Why SDL2 audio could not be initialized, if it could not.
    pub sdl2_init_error: Option<String>,
    /// Whether Rodio can open a playback device and lists an input device.
    pub rodio_available: bool,
}

impl BackendProbe {
    /// A probe that found no audio at all.
    pub fn none() -> (p: Self)
        ensures
            p.sdl2_init_error is Some,
            !p.rodio_available,
    {
        BackendProbe {
            sdl2_init_error: Some(String::from_str("no SDL2 audio on this system")),
            rodio_available: false,
        }
    }

    /// Whether SDL2 audio is available: its initialization succeeded.
    pub fn sdl2_available(&self) -> (b: bool)
        ensures
            b == (self.sdl2_init_error is None),
    {
        self.sdl2_init_error.is_none()
    }
}

/// Backend that does nothing: file-only mode.
#[derive(Debug)]
pub struct NullBackend {
    reason: String,
}

impl View for NullBackend {
    type V = Seq<char>;

    closed spec fn view(&self) -> Seq<char> {
        self.reason@
    }
}

impl NullBackend {
    /// A null backend with the reason no other backend is available.
    pub fn new(reason: &str) -> (b: Self)
        ensures
            b@ == reason@,
    {
        Self { reason: String::from_str(reason) }
    }

    /// A null backend with the default reason.
    pub fn with_default_reason() -> (b: Self)
        ensures
            b@ == "No audio backend available on this system"@,
    {
        Self::new("No audio backend available on this system")
    }

    /// Why no other backend is available.
    pub fn reason(&self) -> (r: &str)
        ensures
            r@ == self@,
    {
        self.reason.as_str()
    }

    /// Backend name.
    pub fn backend_name(&self) -> (s: &'static str)
        ensures
            s@ == "null"@,
    {
        "null"
    }

    /// A null backend never produces sound.
    pub fn is_available(&self) -> (b: bool)
        ensures
            !b,
    {
        false
    }

    /// Capturing from a null backend fails: there is no backend.
    pub fn capture_result(&self) -> (r: Result<(), AudioError>)
        ensures
            r matches Err(AudioError::NoBackend),
    {
        Err(AudioError::NoBackend)
    }
}

impl Default for NullBackend {
    fn default() -> (b: Self)
        ensures
            b@ == "No audio backend available on this system"@,
    {
        Self::with_default_reason()
    }
}

/// Rodio/cpal backend (ALSA). The device itself is driven by the
/// application.
#[derive(Debug)]
pub struct RodioBackend {
    _private: (),
}

impl RodioBackend {
    /// Creating the backend always succeeds; whether audio works is a
    /// matter of probing.
    pub fn new() -> (r: Result<Self, AudioError>)
        ensures
            r is Ok,
    {
        Ok(Self { _private: () })
    }

    /// Backend name.
    pub fn backend_name(&self) -> (s: &'static str)
        ensures
            s@ == "rodio"@,
    {
        "rodio"
    }
}

/// SDL2 backend (PulseAudio). The audio subsystem itself is held by the
/// application.
#[derive(Debug)]
pub struct SDL2Backend {
    _private: (),
}

impl SDL2Backend {
    /// The backend, when SDL2 audio initialized; otherwise the backend error
    /// that initialization reported.
    pub fn new(probe: &BackendProbe) -> (r: Result<Self, AudioError>)
        ensures
            r is Ok <==> probe.sdl2_init_error is None,
            probe.sdl2_init_error matches Some(e) ==> (r matches Err(AudioError::Backend(m))
                && m@ == e@),
    {
        match &probe.sdl2_init_error {
            Some(e) => Err(AudioError::Backend(e.clone())),
            None => Ok(Self { _private: () }),
        }
    }

    /// Backend name.
    pub fn backend_name(&self) -> (s: &'static str)
        ensures
            s@ == "sdl2"@,
    {
        "sdl2"
    }
}

/// Unified audio system.
#[derive(Debug)]
pub enum AudioSystem {
    /// No audio: file-only mode.
    FileOnly,
    /// Rodio/cpal backend.
    Rodio(RodioBackend),
    /// SDL2 backend.
    SDL2(SDL2Backend),
}

/// Why Rodio cannot be used when probing found no playback or no input
/// device.
pub const RODIO_UNAVAILABLE: &'static str = "Rodio: no playback device or no input device";

/// Why a backend cannot be used, as the probe shows it: SDL2 when it did
/// not initialize (the text of the backend error), Rodio when its devices
/// are missing; none when the backend is usable, and never for file-only
/// mode.
pub open spec fn unavailable_reason(backend_type: BackendType, probe: BackendProbe) -> Option<
    Seq<char>,
> {
    match backend_type {
        BackendType::SDL2 => match probe.sdl2_init_error {
            Some(e) => Some("Backend error: "@ + e@),
            None => None,
        },
        BackendType::Rodio => if probe.rodio_available {
            None
        } else {
            Some(RODIO_UNAVAILABLE@)
        },
        BackendType::FileOnly => None,
    }
}

/// The backend chosen from a probe: SDL2 when it initialized, else Rodio
/// when its devices are there, else none.
pub open spec fn selected_backend(probe: BackendProbe) -> BackendType {
    if probe.sdl2_init_error is None {
        BackendType::SDL2
    } else if probe.rodio_available {
        BackendType::Rodio
    } else {
        BackendType::FileOnly
    }
}

/// Name of a backend kind.
pub open spec fn backend_type_name(t: BackendType) -> Seq<char> {
    match t {
        BackendType::FileOnly => "none"@,
        BackendType::Rodio => "rodio"@,
        BackendType::SDL2 => "sdl2"@,
    }
}

/// Whether a backend kind is available according to a probe.
pub open spec fn backend_available(t: BackendType, probe: BackendProbe) -> bool {
    match t {
        BackendType::FileOnly => false,
        BackendType::Rodio => probe.rodio_available,
        BackendType::SDL2 => probe.sdl2_init_error is None,
    }
}

impl AudioSystem {
    /// Kind of the backend.
    pub open spec fn kind(&self) -> BackendType {
        match self {
            AudioSystem::FileOnly => BackendType::FileOnly,
            AudioSystem::Rodio(_) => BackendType::Rodio,
            AudioSystem::SDL2(_) => BackendType::SDL2,
        }
    }

    /// Selects a backend from what probing found: SDL2 first, then Rodio,
    /// else none.
    pub fn new(probe: &BackendProbe) -> (s: Self)
        ensures
            s.kind() == selected_backend(*probe),
    {
        if let Ok(backend) = SDL2Backend::new(probe) {
            return AudioSystem::SDL2(backend);
        }
        if probe.rodio_available {
            if let Ok(backend) = RodioBackend::new() {
                return AudioSystem::Rodio(backend);
            }
        }
        AudioSystem::FileOnly
    }

    /// The system with a given backend; it fails as not available when
    /// probing found that backend unusable. None always succeeds. SDL2
    /// fails when it did not initialize, with the text of the backend error;
    /// Rodio fails when it has no playback device or no input device.
    pub fn with_backend(backend_type: BackendType, probe: &BackendProbe) -> (r: Result<
        Self,
        AudioError,
    >)
        ensures
            r matches Ok(s) ==> s.kind() == backend_type,
            r is Err <==> unavailable_reason(backend_type, *probe) is Some,
            r matches Err(e) ==> (e matches AudioError::NotAvailable(m) && unavailable_reason(
                backend_type,
                *probe,
            ) == Some(m@)),
    {
        match backend_type {
            BackendType::Rodio => {
                if !probe.rodio_available {
                    return Err(AudioError::NotAvailable(String::from_str(RODIO_UNAVAILABLE)));
                }
                match RodioBackend::new() {
                    Ok(b) => Ok(AudioSystem::Rodio(b)),
                    Err(e) => Err(AudioError::NotAvailable(e.message())),
                }
            },
            BackendType::SDL2 => {
                match SDL2Backend::new(probe) {
                    Ok(b) => Ok(AudioSystem::SDL2(b)),
                    Err(e) => Err(AudioError::NotAvailable(e.message())),
                }
            },
            BackendType::FileOnly => Ok(AudioSystem::FileOnly),
        }
    }

    /// Name of the backend.
    pub fn backend_name(&self) -> (s: &'static str)
        ensures
            s@ == backend_type_name(self.kind()),
    {
        match self {
            AudioSystem::Rodio(_) => "rodio",
            AudioSystem::SDL2(_) => "sdl2",
            AudioSystem::FileOnly => "none",
        }
    }

    /// Whether playback is available: never without a backend, otherwise as
    /// probing found.
    pub fn is_available(&self, probe: &BackendProbe) -> (b: bool)
        ensures
            b == backend_available(self.kind(), *probe),
    {
        match self {
            AudioSystem::Rodio(_) => probe.rodio_available,
            AudioSystem::SDL2(_) => probe.sdl2_available(),
            AudioSystem::FileOnly => false,
        }
    }
}

} // verus!
