use thaleia::audio::backends::{AudioError, NullBackend, RodioBackend, SDL2Backend};
use thaleia::audio::diagnostics::{categorize_error, full_diagnostic_report, is_rodio_available, is_sdl2_available};
use thaleia::audio::wav::{decode_pcm16_le, encode_wav};
use thaleia::audio::{
    AudioCapture, AudioChunk, AudioDeviceInfo, AudioEngine, AudioSystem, BackendProbe, BackendType,
    CaptureConfig,
};

fn probe(sdl2_ok: bool, rodio_ok: bool) -> BackendProbe {
    BackendProbe {
        sdl2_init_error: if sdl2_ok { None } else { Some("SDL2 init failed: no audio".to_string()) },
        rodio_available: rodio_ok,
    }
}

#[test]
fn test_null_backend() {
    let backend = NullBackend::new("test");
    assert_eq!(backend.backend_name(), "null");
    assert!(!backend.is_available());
}

#[test]
fn rodio_backend_test_backend_creation() {
    let backend = RodioBackend::new();
    assert!(backend.is_ok());
}

#[test]
fn test_diagnostic_report() {
    let report = full_diagnostic_report(&BackendProbe::none());
    assert!(!report.is_empty());
    assert!(report.contains("Backend Availability"));
}

#[test]
fn test_categorize_error() {
    let (title, _) = categorize_error("No such file or directory");
    assert_eq!(title, "No audio device found");
}

#[test]
fn test_audio_engine_creation() {
    let engine = AudioEngine::new(&BackendProbe::none());
    assert!(!engine.backend_name().is_empty());
}

#[test]
fn test_audio_engine_with_backend() {
    let result = AudioEngine::with_backend(BackendType::FileOnly, &BackendProbe::none());
    assert!(result.is_ok());
}

#[test]
fn test_capture_config_default() {
    let config = CaptureConfig::default();
    assert_eq!(config.sample_rate, 16_000);
    assert_eq!(config.channels, 1);
}

#[test]
fn test_audio_device_info_debug() {
    let info = AudioDeviceInfo { name: "Test Mic".to_string(), is_default: true };
    let debug_str = format!("{:?}", info);
    assert!(debug_str.contains("Test Mic"));
}

// ---- backend selection ----

#[test]
fn selection_prefers_sdl2_then_rodio_then_none() {
    assert_eq!(AudioSystem::new(&probe(true, true)).backend_name(), "sdl2");
    assert_eq!(AudioSystem::new(&probe(false, true)).backend_name(), "rodio");
    assert_eq!(AudioSystem::new(&probe(false, false)).backend_name(), "none");
}

#[test]
fn availability_follows_probe() {
    let p = probe(false, true);
    assert!(AudioSystem::new(&p).is_available(&p));
    let none = probe(false, false);
    assert!(!AudioSystem::new(&none).is_available(&none));
    assert!(is_rodio_available(&p));
    assert!(!is_sdl2_available(&p));
    assert!(AudioCapture::is_available(&p));
    assert!(!AudioCapture::is_available(&none));
}

#[test]
fn sdl2_without_init_is_not_available() {
    let p = probe(false, true);
    match AudioSystem::with_backend(BackendType::SDL2, &p) {
        Err(AudioError::NotAvailable(m)) => assert_eq!(m, "Backend error: SDL2 init failed: no audio"),
        _ => panic!("expected NotAvailable"),
    }
    assert!(SDL2Backend::new(&p).is_err());
    assert!(SDL2Backend::new(&probe(true, false)).is_ok());
    assert!(AudioSystem::with_backend(BackendType::Rodio, &p).is_ok());
}

#[test]
fn rodio_without_devices_is_not_available() {
    let p = probe(true, false);
    match AudioSystem::with_backend(BackendType::Rodio, &p) {
        Err(AudioError::NotAvailable(m)) => assert_eq!(m, "Rodio: no playback device or no input device"),
        _ => panic!("expected NotAvailable"),
    }
    assert!(AudioEngine::with_backend(BackendType::Rodio, &p).is_err());
    assert!(AudioSystem::with_backend(BackendType::SDL2, &p).is_ok());
    assert!(AudioSystem::with_backend(BackendType::FileOnly, &probe(false, false)).is_ok());
}

#[test]
fn null_backend_capture_has_no_backend() {
    let backend = NullBackend::default();
    assert!(matches!(backend.capture_result(), Err(AudioError::NoBackend)));
    assert_eq!(backend.reason(), "No audio backend available on this system");
}

#[test]
fn diagnostic_report_names_selection() {
    let report = full_diagnostic_report(&probe(false, false));
    assert!(report.contains("none - No audio backend available"));
    assert!(report.contains("No audio backends available"));
    let report = full_diagnostic_report(&probe(true, false));
    assert!(report.contains("sdl2 (PulseAudio)"));
}

#[test]
fn error_categories() {
    assert_eq!(categorize_error("Permission denied").0, "Audio permission denied");
    assert_eq!(categorize_error("USB device unplugged").0, "Audio device unavailable");
    assert_eq!(categorize_error("Device or resource BUSY").0, "Audio device unavailable");
    assert_eq!(categorize_error("resource busy").0, "Audio device in use");
    assert_eq!(categorize_error("Unknown PCM default").0, "No audio device found");
    assert_eq!(categorize_error("something else").0, "Audio error");
}

#[test]
fn audio_chunk_keeps_fields() {
    let chunk = AudioChunk::new(vec![0; 16_000], 16_000, 1);
    assert_eq!(chunk.samples.len(), 16_000);
    assert_eq!(chunk.sample_rate, 16_000);
    assert_eq!(chunk.channels, 1);
}

#[test]
fn capture_front_end_is_created() {
    assert!(AudioCapture::new().is_ok());
}

// ---- WAV framing ----

#[test]
fn wav_header_and_data() {
    let samples: Vec<i16> = vec![0, 1, -1, i16::MAX, i16::MIN];
    let wav = encode_wav(&samples, 16000).unwrap();
    assert_eq!(wav.len(), 44 + 2 * samples.len());
    assert_eq!(&wav[0..4], b"RIFF");
    assert_eq!(&wav[8..12], b"WAVE");
    assert_eq!(&wav[12..16], b"fmt ");
    assert_eq!(&wav[36..40], b"data");
    assert_eq!(u32::from_le_bytes([wav[4], wav[5], wav[6], wav[7]]), 36 + 10);
    assert_eq!(u32::from_le_bytes([wav[24], wav[25], wav[26], wav[27]]), 16000);
    assert_eq!(u32::from_le_bytes([wav[28], wav[29], wav[30], wav[31]]), 32000);
    assert_eq!(u32::from_le_bytes([wav[40], wav[41], wav[42], wav[43]]), 10);
    assert_eq!(decode_pcm16_le(&wav[44..]), samples);
}

#[test]
fn wav_of_silence_is_longer_than_header() {
    let samples: Vec<i16> = vec![0; 16000];
    let wav = encode_wav(&samples, 16000).unwrap();
    assert!(wav.len() > 44);
    assert!(wav[44..].iter().all(|b| *b == 0));
}

#[test]
fn raw_pcm_decoding_ignores_odd_byte() {
    let bytes: Vec<u8> = vec![0x01, 0x00, 0xff, 0xff, 0x00, 0x80, 0x7f];
    assert_eq!(decode_pcm16_le(&bytes), vec![1i16, -1, i16::MIN]);
    assert!(decode_pcm16_le(&[]).is_empty());
}
