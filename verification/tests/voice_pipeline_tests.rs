use thaleia::audio::backends::{NullBackend, SDL2Backend};
use thaleia::audio::diagnostics::is_sdl2_available;
use thaleia::audio::BackendProbe;
use thaleia::integration::{AudioObservation, PipelineConfig, PipelineStep, VoicePipeline};
use thaleia::pipeline::DialogueState;
use thaleia::vad::{SileroVad, VadTiming};

/// What the application's detectors report for a chunk: the energy rule of
/// the voice activity detector (probability 0.8 above an RMS of 0.01,
/// speech above 0.5), no wake word, and the length at the pipeline rate.
fn observe(chunk: &[f32], sample_rate: u32) -> AudioObservation {
    let rms = if chunk.is_empty() {
        0.0
    } else {
        (chunk.iter().map(|s| s * s).sum::<f32>() / chunk.len() as f32).sqrt()
    };
    let probability = if rms > 0.01 { 0.8 } else { 0.1 };
    let analysed_len = ((chunk.len() as u64) * 16000).div_ceil(sample_rate as u64) as usize;
    AudioObservation { wake_word: None, is_speech: probability > 0.5, analysed_len }
}

fn process(p: &mut VoicePipeline<f32>, chunk: &[f32], rate: u32) -> Option<PipelineStep<f32>> {
    let obs = observe(chunk, rate);
    p.process_audio(chunk, rate, &obs).unwrap()
}

#[test]
fn mod_test_pipeline_creation() {
    let pipeline = VoicePipeline::<f32>::new(PipelineConfig::default());
    assert!(pipeline.is_ok());
}

#[test]
fn pipeline_test_pipeline_creation() {
    let pipeline = VoicePipeline::<f32>::new(PipelineConfig::default());
    assert!(pipeline.is_ok());
}

#[test]
fn test_pipeline_initial_state() {
    let pipeline = VoicePipeline::<f32>::new(PipelineConfig::default()).unwrap();
    assert_eq!(pipeline.state(), DialogueState::Idle);
}

#[test]
fn test_config_wake_word_disabled() {
    let config = PipelineConfig { enable_wake_word: false, enable_vad: true, ..Default::default() };
    let pipeline = VoicePipeline::<f32>::new(config).unwrap();
    assert!(!pipeline.has_wake_word());
    assert!(pipeline.vad().is_some());
}

#[test]
fn test_config_vad_disabled() {
    let config = PipelineConfig { enable_wake_word: true, enable_vad: false, ..Default::default() };
    let pipeline = VoicePipeline::<f32>::new(config).unwrap();
    assert!(pipeline.has_wake_word());
    assert!(pipeline.vad().is_none());
    assert!(!pipeline.can_interrupt());
}

#[test]
fn test_push_to_talk() {
    let mut pipeline = VoicePipeline::<f32>::new(PipelineConfig::default()).unwrap();
    pipeline.push_to_talk().unwrap();
    assert_eq!(pipeline.state(), DialogueState::Listening);
}

#[test]
fn test_stop() {
    let mut pipeline = VoicePipeline::<f32>::new(PipelineConfig::default()).unwrap();
    pipeline.push_to_talk().unwrap();
    assert_eq!(pipeline.state(), DialogueState::Listening);
    pipeline.stop().unwrap();
    assert_eq!(pipeline.state(), DialogueState::Idle);
}

#[test]
fn test_can_interrupt_only_when_speaking() {
    let mut pipeline = VoicePipeline::<f32>::new(PipelineConfig::default()).unwrap();
    assert!(!pipeline.can_interrupt());
    pipeline.push_to_talk().unwrap();
    process(&mut pipeline, &[0.0f32; 16000], 16000);
    pipeline.stop().unwrap();
    assert!(!pipeline.can_interrupt());
}

#[test]
fn test_audio_buffering() {
    let mut pipeline = VoicePipeline::<f32>::new(PipelineConfig::default()).unwrap();
    pipeline.push_to_talk().unwrap();
    let chunk = vec![0.1f32; 1600];
    process(&mut pipeline, &chunk, 16000);
    let audio = pipeline.take_audio();
    assert!(!audio.is_empty());
}

#[test]
fn test_wake_word_disabled() {
    let config = PipelineConfig { enable_wake_word: false, enable_vad: true, ..Default::default() };
    let pipeline = VoicePipeline::<f32>::new(config).unwrap();
    assert!(!pipeline.has_wake_word());
    assert!(pipeline.vad().is_some());
}

#[test]
fn test_vad_disabled() {
    let config = PipelineConfig { enable_wake_word: true, enable_vad: false, ..Default::default() };
    let pipeline = VoicePipeline::<f32>::new(config).unwrap();
    assert!(pipeline.has_wake_word());
    assert!(pipeline.vad().is_none());
}

#[test]
fn test_full_flow_push_to_talk_to_listening() {
    let mut pipeline = VoicePipeline::<f32>::new(PipelineConfig::default()).unwrap();
    assert_eq!(pipeline.state(), DialogueState::Idle);
    pipeline.push_to_talk().unwrap();
    assert_eq!(pipeline.state(), DialogueState::Listening);
}

#[test]
fn test_audio_accumulates_in_listening_state() {
    let mut pipeline = VoicePipeline::<f32>::new(PipelineConfig::default()).unwrap();
    pipeline.push_to_talk().unwrap();
    let chunk = vec![0.0f32; 1600];
    process(&mut pipeline, &chunk, 16000);
    process(&mut pipeline, &chunk, 16000);
    process(&mut pipeline, &chunk, 16000);
    let audio = pipeline.take_audio();
    assert_eq!(audio.len(), 1600 * 3);
}

#[test]
fn test_take_audio_clears_buffer() {
    let mut pipeline = VoicePipeline::<f32>::new(PipelineConfig::default()).unwrap();
    pipeline.push_to_talk().unwrap();
    let chunk = vec![0.1f32; 800];
    process(&mut pipeline, &chunk, 16000);
    let audio = pipeline.take_audio();
    assert!(!audio.is_empty());
    let audio2 = pipeline.take_audio();
    assert!(audio2.is_empty());
}

#[test]
fn test_stop_clears_audio_buffer() {
    let mut pipeline = VoicePipeline::<f32>::new(PipelineConfig::default()).unwrap();
    pipeline.push_to_talk().unwrap();
    let chunk = vec![0.1f32; 800];
    process(&mut pipeline, &chunk, 16000);
    pipeline.stop().unwrap();
    let audio = pipeline.take_audio();
    assert!(audio.is_empty());
}

#[test]
fn test_is_active_states() {
    let mut pipeline = VoicePipeline::<f32>::new(PipelineConfig::default()).unwrap();
    assert!(!pipeline.state().is_active());
    pipeline.push_to_talk().unwrap();
    assert!(pipeline.state().is_active());
    pipeline.stop().unwrap();
    assert!(!pipeline.state().is_active());
}

#[test]
fn test_process_audio_in_idle_returns_none() {
    let mut pipeline = VoicePipeline::<f32>::new(PipelineConfig::default()).unwrap();
    let chunk = vec![0.0f32; 1600];
    let result = process(&mut pipeline, &chunk, 16000);
    assert!(result.is_none());
}

#[test]
fn test_multiple_stop_calls_are_safe() {
    let mut pipeline = VoicePipeline::<f32>::new(PipelineConfig::default()).unwrap();
    pipeline.stop().unwrap();
    pipeline.stop().unwrap();
    pipeline.stop().unwrap();
    assert_eq!(pipeline.state(), DialogueState::Idle);
}

#[test]
fn test_multiple_push_to_talk_calls() {
    let mut pipeline = VoicePipeline::<f32>::new(PipelineConfig::default()).unwrap();
    pipeline.push_to_talk().unwrap();
    assert_eq!(pipeline.state(), DialogueState::Listening);
    let result = pipeline.push_to_talk();
    assert!(result.is_err());
}

#[test]
fn test_sample_rate_configuration() {
    let pipeline = VoicePipeline::<f32>::new(PipelineConfig::default()).unwrap();
    assert_eq!(pipeline.sample_rate(), 16000);
}

#[test]
fn test_config_passthrough() {
    let config = PipelineConfig {
        enable_wake_word: false,
        enable_vad: false,
        silence_timeout_secs: 10,
        max_audio_buffer_secs: 60,
        ..Default::default()
    };
    let pipeline = VoicePipeline::<f32>::new(config).unwrap();
    assert!(!pipeline.has_wake_word());
    assert!(pipeline.vad().is_none());
    assert_eq!(pipeline.state(), DialogueState::Idle);
}

#[test]
fn test_process_audio_accepts_sample_rate() {
    let mut pipeline = VoicePipeline::<f32>::new(PipelineConfig::default()).unwrap();
    let audio_16k = vec![0.0f32; 1600];
    let obs = observe(&audio_16k, 16000);
    assert!(pipeline.process_audio(&audio_16k, 16000, &obs).is_ok());
    let audio_44k = vec![0.0f32; 4410];
    let obs = observe(&audio_44k, 44100);
    assert_eq!(obs.analysed_len, 1600);
    assert!(pipeline.process_audio(&audio_44k, 44100, &obs).is_ok());
}

// ---- backends and detectors whose logic the library holds ----

#[test]
fn test_silero_vad_initialization() {
    let vad = SileroVad::new(VadTiming::default());
    assert!(vad.is_ok());
}

#[test]
fn test_capture_returns_error() {
    let backend = NullBackend::default();
    assert!(backend.capture_result().is_err());
}

#[test]
fn sdl2_backend_test_backend_creation() {
    let failed = BackendProbe { sdl2_init_error: Some("SDL2 init failed: no display".to_string()), rodio_available: false };
    assert!(SDL2Backend::new(&failed).is_err());
    let working = BackendProbe { sdl2_init_error: None, rodio_available: false };
    assert!(SDL2Backend::new(&working).is_ok());
}

#[test]
fn test_backend_name() {
    let working = BackendProbe { sdl2_init_error: None, rodio_available: false };
    if let Ok(backend) = SDL2Backend::new(&working) {
        assert_eq!(backend.backend_name(), "sdl2");
    }
}

#[test]
fn test_is_available() {
    let working = BackendProbe { sdl2_init_error: None, rodio_available: false };
    assert!(is_sdl2_available(&working));
    assert!(!is_sdl2_available(&BackendProbe::none()));
}

#[test]
fn silence_timeout_returns_to_idle() {
    let config = PipelineConfig { enable_wake_word: false, enable_vad: false, ..Default::default() };
    let mut p = VoicePipeline::<f32>::new(config).unwrap();
    p.push_to_talk().unwrap();
    let second = vec![0.0f32; 16000];
    assert!(process(&mut p, &second, 16000).is_none());
    assert!(process(&mut p, &second, 16000).is_none());
    assert!(process(&mut p, &second, 16000).is_none());
    assert_eq!(p.state(), DialogueState::Listening);
    assert!(matches!(process(&mut p, &second, 16000), Some(PipelineStep::Idle)));
    assert_eq!(p.state(), DialogueState::Idle);
    assert_eq!(p.buffered_len(), 0);
}

#[test]
fn speech_restarts_the_silence_count() {
    let config = PipelineConfig { enable_wake_word: false, enable_vad: false, ..Default::default() };
    let mut p = VoicePipeline::<f32>::new(config).unwrap();
    p.push_to_talk().unwrap();
    let quiet = vec![0.0f32; 16000];
    let loud = vec![0.5f32; 16000];
    assert!(process(&mut p, &quiet, 16000).is_none());
    assert!(process(&mut p, &quiet, 16000).is_none());
    assert!(process(&mut p, &loud, 16000).is_none());
    assert!(process(&mut p, &quiet, 16000).is_none());
    assert!(process(&mut p, &quiet, 16000).is_none());
    assert!(process(&mut p, &quiet, 16000).is_none());
    assert_eq!(p.state(), DialogueState::Listening);
    assert_eq!(p.buffered_len(), 6 * 16000);
    assert!(matches!(process(&mut p, &quiet, 16000), Some(PipelineStep::Idle)));
}

#[test]
fn full_buffer_returns_to_idle() {
    let config = PipelineConfig {
        enable_wake_word: false,
        enable_vad: false,
        silence_timeout_secs: 10,
        max_audio_buffer_secs: 2,
        ..Default::default()
    };
    let mut p = VoicePipeline::<f32>::new(config).unwrap();
    p.push_to_talk().unwrap();
    let loud = vec![0.5f32; 16000];
    assert!(process(&mut p, &loud, 16000).is_none());
    assert!(process(&mut p, &loud, 16000).is_none());
    assert!(matches!(process(&mut p, &loud, 16000), Some(PipelineStep::Idle)));
    assert_eq!(p.state(), DialogueState::Idle);
}
