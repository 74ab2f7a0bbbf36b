use thaleia::debug::{debug_requested, is_verbose_filter};
use thaleia::download::{format_bytes, ProgressBar};
use thaleia::integration::{AudioObservation, PipelineConfig, PipelineStep, VoicePipeline};
use thaleia::pipeline::DialogueState;
use thaleia::text::{first_word_of, replace, trim_non_alphanumeric};
use thaleia::vad::{frame_ms, VadState, VadSystem, VadTiming};
use thaleia::{Error, VERSION};

#[test]
fn test_version_exists() {
    assert!(!VERSION.is_empty());
}

#[test]
fn test_format_bytes() {
    assert_eq!(format_bytes(500), "500B");
    assert_eq!(format_bytes(1024), "1.0KB");
    assert_eq!(format_bytes(1024 * 1024), "1.0MB");
    assert_eq!(format_bytes(1024 * 1024 * 1024), "1.0GB");
}

#[test]
fn config_test_default_config() {
    let config = PipelineConfig::default();
    assert!(config.enable_wake_word);
    assert!(config.enable_vad);
    assert_eq!(config.silence_timeout_secs, 3);
    assert_eq!(config.max_audio_buffer_secs, 30);
}

#[test]
fn test_custom_config() {
    let config = PipelineConfig { enable_wake_word: false, enable_vad: true, silence_timeout_secs: 5, ..Default::default() };
    assert!(!config.enable_wake_word);
    assert!(config.enable_vad);
    assert_eq!(config.silence_timeout_secs, 5);
}

#[test]
fn mod_test_default_config() {
    let config = PipelineConfig::default();
    assert!(config.enable_wake_word);
    assert!(config.enable_vad);
}

#[test]
fn test_vad_state_default() {
    let state = VadState::default();
    assert_eq!(state, VadState::Idle);
}

// ---- sizes shown to people ----

#[test]
fn byte_sizes_round_like_one_decimal_formatting() {
    let units = [(1024u64, "KB"), (1024 * 1024, "MB"), (1024 * 1024 * 1024, "GB")];
    let mut values: Vec<u64> = vec![0, 1, 1023, 1024, 1075, 1126, 1127, 1536, 10 * 1024 * 1024 + 5 * 1024 * 102, 5 * 1024 * 1024 * 1024 + 1];
    let mut x: u64 = 7;
    for _ in 0..2000 {
        x = x.wrapping_mul(6364136223846793005).wrapping_add(1442695040888963407);
        values.push((x >> 20) % (1 << 40));
        values.push((x >> 40) % (1 << 22));
    }
    for b in values {
        let expected = if b >= units[2].0 {
            format!("{:.1}{}", b as f64 / units[2].0 as f64, units[2].1)
        } else if b >= units[1].0 {
            format!("{:.1}{}", b as f64 / units[1].0 as f64, units[1].1)
        } else if b >= units[0].0 {
            format!("{:.1}{}", b as f64 / units[0].0 as f64, units[0].1)
        } else {
            format!("{}B", b)
        };
        assert_eq!(format_bytes(b), expected, "for {} bytes", b);
    }
}

#[test]
fn byte_sizes_exact_values() {
    assert_eq!(format_bytes(1536), "1.5KB");
    assert_eq!(format_bytes(1023), "1023B");
    assert_eq!(format_bytes(0), "0B");
    assert_eq!(format_bytes(u64::MAX), "17179869184.0GB");
}

#[test]
fn progress_counts() {
    let mut pb = ProgressBar::new(100);
    assert_eq!((pb.total(), pb.current(), pb.width()), (100, 0, 50));
    assert!(!pb.is_partial());
    pb.update(40);
    pb.inc(10);
    assert_eq!(pb.current(), 50);
    assert!(pb.is_partial());
    pb.complete();
    assert_eq!(pb.current(), 100);
    assert!(!pb.is_partial());
}

// ---- voice activity detection ----

#[test]
fn vad_defaults_and_frames() {
    let vad = VadSystem::new().unwrap();
    assert!(vad.is_ready());
    assert_eq!(vad.state(), VadState::Idle);
    let t = VadTiming::default();
    assert_eq!((t.min_speech_duration_ms, t.min_silence_duration_ms, t.sample_rate), (250, 300, 16000));
    assert_eq!(frame_ms(1600, 16000), 100);
    assert_eq!(frame_ms(16000, 16000), 1000);
    assert_eq!(frame_ms(4410, 44100), 100);
    assert_eq!(frame_ms(0, 16000), 0);
}

#[test]
fn sustained_speech_then_silence() {
    let mut vad = VadSystem::new().unwrap();
    assert_eq!(vad.update(true, 100), VadState::Idle);
    assert_eq!(vad.update(true, 100), VadState::Idle);
    assert_eq!(vad.update(true, 100), VadState::Speaking);
    assert!(vad.state().is_speaking());
    assert_eq!(vad.update(false, 200), VadState::Speaking);
    assert_eq!(vad.update(false, 200), VadState::Ending);
    assert!(vad.state().is_speaking());
    assert_eq!(vad.update(false, 10), VadState::Silence);
    assert!(!vad.state().is_speaking());
    assert_eq!(vad.update(true, 300), VadState::Speaking);
}

#[test]
fn interrupted_speech_restarts_count() {
    let mut vad = VadSystem::with_timing(VadTiming { min_speech_duration_ms: 250, min_silence_duration_ms: 300, sample_rate: 16000 }).unwrap();
    vad.update(true, 200);
    vad.update(false, 10);
    assert_eq!(vad.update(true, 200), VadState::Idle);
    assert_eq!(vad.update(true, 50), VadState::Speaking);
    assert!(vad.accepts(true, 1000));
    assert!(!vad.accepts(true, u32::MAX));
}

// ---- the voice pipeline ----

fn quiet(len: usize) -> AudioObservation {
    AudioObservation { wake_word: None, is_speech: false, analysed_len: len }
}

#[test]
fn pipeline_wake_word_listen_speak() {
    let mut p: VoicePipeline<f32> = VoicePipeline::new(PipelineConfig::default()).unwrap();
    assert_eq!(p.state(), DialogueState::Idle);
    assert!(p.wants_wake_word());
    assert!(p.process_audio(&[0.0; 1600], 16000, &quiet(1600)).unwrap().is_none());
    let heard = AudioObservation { wake_word: Some("hey_thaleia".to_string()), is_speech: false, analysed_len: 1600 };
    match p.process_audio(&[0.5; 1600], 16000, &heard).unwrap() {
        Some(PipelineStep::WakeWordDetected { keyword }) => assert_eq!(keyword, "hey_thaleia"),
        _ => panic!("expected a wake word"),
    }
    assert_eq!(p.state(), DialogueState::Listening);
    let speech = AudioObservation { wake_word: None, is_speech: true, analysed_len: 3200 };
    assert!(p.process_audio(&[0.3; 3200], 16000, &speech).unwrap().is_none());
    let more = AudioObservation { wake_word: None, is_speech: true, analysed_len: 800 };
    assert!(matches!(p.process_audio(&[0.3; 800], 16000, &more).unwrap(), Some(PipelineStep::SpeechStarted)));
    assert_eq!(p.state(), DialogueState::Processing);
    match p.process_audio(&[], 16000, &quiet(0)).unwrap() {
        Some(PipelineStep::SpeechEnded { audio }) => assert_eq!(audio.len(), 4000),
        _ => panic!("expected the captured speech"),
    }
    assert_eq!(p.state(), DialogueState::Speaking);
    assert!(p.can_interrupt());
    p.speech_finished().unwrap();
    assert_eq!(p.state(), DialogueState::Idle);
}

#[test]
fn pipeline_buffers_and_times_out() {
    let config = PipelineConfig { max_audio_buffer_secs: 1, ..Default::default() };
    let mut p: VoicePipeline<f32> = VoicePipeline::new(config).unwrap();
    p.push_to_talk().unwrap();
    assert!(p.process_audio(&[0.0; 1600], 16000, &quiet(1600)).unwrap().is_none());
    assert!(p.process_audio(&[0.0; 1600], 16000, &quiet(1600)).unwrap().is_none());
    let audio = p.take_audio();
    assert_eq!(audio.len(), 3200);
    assert!(p.take_audio().is_empty());
    assert!(p.process_audio(&[0.0; 16000], 16000, &quiet(16000)).unwrap().is_none());
    assert!(matches!(p.process_audio(&[0.0; 16000], 16000, &quiet(16000)).unwrap(), Some(PipelineStep::Idle)));
    assert_eq!(p.state(), DialogueState::Idle);
    assert!(p.take_audio().is_empty());
}

#[test]
fn pipeline_stop_and_invalid_push() {
    let mut p: VoicePipeline<i16> = VoicePipeline::new(PipelineConfig { enable_wake_word: false, enable_vad: false, ..Default::default() }).unwrap();
    assert!(!p.has_wake_word());
    assert!(p.vad().is_none());
    assert!(!p.wants_wake_word());
    p.stop().unwrap();
    p.stop().unwrap();
    assert_eq!(p.state(), DialogueState::Idle);
    p.push_to_talk().unwrap();
    assert!(matches!(p.push_to_talk(), Err(Error::Internal(_))));
    p.process_audio(&[1, 2, 3], 16000, &quiet(3)).unwrap();
    p.stop().unwrap();
    assert_eq!(p.state(), DialogueState::Idle);
    assert!(p.take_audio().is_empty());
    assert_eq!(p.sample_rate(), 16000);
}

// ---- text helpers ----

#[test]
fn replace_is_left_to_right_without_overlap() {
    assert_eq!(replace("aaaa", "aa", "b"), "aaaa".replace("aa", "b"));
    assert_eq!(replace("abcabc", "bc", "X"), "aXaX");
    assert_eq!(replace("abc", "zz", "X"), "abc");
    assert_eq!(replace("", "a", "X"), "");
    assert_eq!(replace("héllo héllo", "é", "e"), "hello hello");
}

#[test]
fn words_and_trimming() {
    assert_eq!(first_word_of("  hello world"), Some("hello"));
    assert_eq!(first_word_of(" \t "), None);
    assert_eq!(trim_non_alphanumeric("...Hi!?"), "Hi");
    assert_eq!(trim_non_alphanumeric("!!"), "");
}

#[test]
fn debug_requested_by_debug_variable() {
    assert!(debug_requested(true, None));
    assert!(debug_requested(true, Some("warn")));
}

#[test]
fn debug_requested_by_verbose_rust_log() {
    assert!(debug_requested(false, Some("debug")));
    assert!(debug_requested(false, Some("thaleia=TRACE")));
    assert!(debug_requested(false, Some("info,thaleia_core=Debug")));
    assert!(is_verbose_filter("TRACE"));
}

#[test]
fn debug_not_requested_by_quiet_rust_log() {
    assert!(!debug_requested(false, None));
    assert!(!debug_requested(false, Some("info")));
    assert!(!debug_requested(false, Some("warn,thaleia=error")));
    assert!(!is_verbose_filter(""));
}
