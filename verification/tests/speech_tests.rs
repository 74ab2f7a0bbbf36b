use thaleia::stt::{
    audio_file_kind, join_segments, listen_model_size, models_to_download, AudioFileKind, BackendName,
    LanguageCode, ModelSize, SttBackendType, SttInfo, Transcription,
};
use thaleia::tts::{fix_pronunciations, kokoro_default_voice, kokoro_voices, TtsEngine, Voice, VoiceId};
use thaleia::wake_word::{default_keywords, reported_keyword, WakeWordBackendType};

#[test]
fn test_backend_name_display() {
    let name = BackendName::Whisper;
    assert_eq!(name.as_str(), "whisper");
    assert_eq!(name.as_str().to_string(), "whisper");
}

#[test]
fn test_backend_name_custom() {
    let name = BackendName::Custom("my-backend".to_string());
    assert_eq!(name.as_str(), "my-backend");
}

#[test]
fn test_language_code_valid() {
    let code = LanguageCode::new("en").unwrap();
    assert_eq!(code.as_str(), "en");
}

#[test]
fn test_language_code_invalid() {
    assert!(LanguageCode::new("eng").is_none());
    assert!(LanguageCode::new("e1").is_none());
}

#[test]
fn test_language_code_from_str() {
    let code = LanguageCode::from("en");
    assert_eq!(code.as_str(), "en");
}

#[test]
fn test_language_code_common_codes() {
    let codes = LanguageCode::common_codes();
    assert!(!codes.is_empty());
    assert!(codes.iter().any(|c| c.as_str() == "en"));
}

#[test]
fn test_transcription_new() {
    let t = Transcription::new("hello world".to_string());
    assert_eq!(t.text, "hello world");
    assert!(t.language.is_none());
    assert!(!t.is_partial);
}

#[test]
fn test_transcription_with_language() {
    let lang = LanguageCode::from("en");
    let t = Transcription::new("hello".to_string()).with_language(lang.clone());
    assert_eq!(t.language.unwrap(), lang);
}

#[test]
fn test_transcription_partial() {
    let t = Transcription::new("partial...".to_string()).partial();
    assert!(t.is_partial);
}

#[test]
fn test_stt_info_new() {
    let info = SttInfo::new(BackendName::Whisper, vec![LanguageCode::from("en")], false);
    assert_eq!(info.name.as_str(), "whisper");
    assert_eq!(info.languages.len(), 1);
    assert!(!info.supports_streaming);
    assert!(info.model_size.is_none());
}

#[test]
fn test_stt_info_with_model() {
    let info = SttInfo::new(BackendName::Whisper, vec![], false).with_model("base");
    assert_eq!(info.model_size, Some("base".to_string()));
}

#[test]
fn test_model_size_default() {
    assert_eq!(ModelSize::default(), ModelSize::Tiny);
}

#[test]
fn test_model_size_names() {
    assert_eq!(ModelSize::Tiny.model_name(), "tiny");
    assert_eq!(ModelSize::Base.model_name(), "base");
    assert_eq!(ModelSize::Small.model_name(), "small");
}

#[test]
fn test_voice_id() {
    let id = VoiceId::new("af_sarah");
    assert_eq!(id.as_str(), "af_sarah");
}

#[test]
fn test_voice() {
    let voice = Voice::new(VoiceId::new("test"), "Test Voice", "en");
    assert_eq!(voice.name, "Test Voice");
    assert_eq!(voice.language, "en");
}

#[test]
fn test_built_in_voices() {
    let voices = TtsEngine::built_in_voices();
    assert!(!voices.is_empty());
    assert!(voices.iter().all(|v| v.language == "en"));
}

// ---- more of the speech types ----

#[test]
fn language_codes_are_lowercased_and_checked() {
    assert_eq!(LanguageCode::new("EN").unwrap().as_str(), "en");
    assert_eq!(LanguageCode::new("Zh").unwrap().as_str(), "zh");
    assert!(LanguageCode::new("é").is_none());
    assert!(LanguageCode::new("").is_none());
    assert!(LanguageCode::new("e").is_none());
    assert_eq!(LanguageCode::from("xyz").as_str(), "en");
    assert_eq!(LanguageCode::from("FR").as_str(), "fr");
    assert_eq!(LanguageCode::default().as_str(), "en");
    let codes: Vec<String> = LanguageCode::common_codes().iter().map(|c| c.as_str().to_string()).collect();
    assert_eq!(codes, vec!["en", "zh", "es", "fr", "de", "ja", "ko", "ru", "pt", "it"]);
}

#[test]
fn transcription_from_string() {
    let t = Transcription::from("said".to_string());
    assert_eq!(t.text, "said");
    assert!(t.language.is_none());
    assert!(!t.is_partial);
}

#[test]
fn backend_names() {
    assert_eq!(BackendName::Qwen3Asr.as_str(), "qwen3-asr");
    assert_eq!(BackendName::default(), BackendName::Whisper);
    assert_eq!(SttBackendType::Whisper.name(), "whisper");
    assert_eq!(SttBackendType::default(), SttBackendType::Whisper);
    assert_eq!(WakeWordBackendType::default().name(), "silero");
    assert_eq!(WakeWordBackendType::Placeholder.name(), "placeholder");
}

#[test]
fn model_files_and_choices() {
    assert_eq!(ModelSize::Base.file_name(), "base.bin");
    assert_eq!(
        ModelSize::Small.download_url(),
        "https://huggingface.co/ggerganov/whisper.cpp/resolve/main/ggml-small.bin"
    );
    assert_eq!(ModelSize::from_name("tiny"), Some(ModelSize::Tiny));
    assert_eq!(ModelSize::from_name("huge"), None);
    assert_eq!(listen_model_size(None), Some(ModelSize::Base));
    assert_eq!(listen_model_size(Some("small")), Some(ModelSize::Small));
    assert_eq!(listen_model_size(Some("medium")), None);
    assert_eq!(models_to_download(None), Some(vec![ModelSize::Tiny, ModelSize::Base, ModelSize::Small]));
    assert_eq!(models_to_download(Some("base")), Some(vec![ModelSize::Base]));
    assert_eq!(models_to_download(Some("large")), None);
}

#[test]
fn engine_voices_and_default() {
    let engine = TtsEngine::new().unwrap();
    let ids: Vec<String> = engine.list_voices().iter().map(|v| v.id.as_str().to_string()).collect();
    assert_eq!(ids, vec!["af_sarah", "af_sky", "af_bella", "af_nicole", "am_adam"]);
    assert_eq!(engine.default_voice().as_str(), "af_sky");
    let kokoro = kokoro_voices();
    assert_eq!(kokoro.len(), 15);
    assert_eq!(kokoro[4].name, "Nicole (Low)");
    assert_eq!(kokoro[14].language, "zh");
    assert_eq!(kokoro_default_voice().as_str(), "af_sky");
}

#[test]
fn name_is_respelled_as_a_word() {
    assert_eq!(fix_pronunciations("I am Thaleia, hello."), "I am Thal-yah, hello.");
    assert_eq!(fix_pronunciations("Say \"Thaleia\" now"), "Say \"Thal-yah\" now");
    assert_eq!(fix_pronunciations("It is thaleia's turn"), "It is Thal-yah's turn");
    assert_eq!(fix_pronunciations("Hey Thaleia!"), "Hey Thal-yah!");
    assert_eq!(fix_pronunciations("Thaleia Thaleia Thaleia"), "Thaleia Thal-yah Thaleia");
    assert_eq!(fix_pronunciations("Thaleiax stays"), "Thaleiax stays");
}

#[test]
fn text_without_the_name_is_unchanged() {
    for s in ["", "hello world", "Thalia, Thal!", "haleiax?"] {
        if !s.contains("haleia") {
            assert_eq!(fix_pronunciations(s), s);
        }
    }
}

#[test]
fn wake_keywords() {
    let k = default_keywords();
    assert_eq!(k, vec!["hey_thaleia".to_string()]);
    assert_eq!(reported_keyword(&k), "hey_thaleia");
    assert_eq!(reported_keyword(&vec![]), "");
}

#[test]
fn segments_join_with_spaces() {
    let segs = vec![Some(Some("Hello".to_string())), None, Some(Some("world".to_string()))];
    assert_eq!(join_segments(&segs), "Hello world");
    let undecodable = vec![Some(Some("a".to_string())), Some(None), Some(Some("b".to_string()))];
    assert_eq!(join_segments(&undecodable), "a  b");
    assert_eq!(join_segments(&vec![Some(None), Some(Some("x".to_string()))]), "x");
    assert_eq!(join_segments(&vec![]), "");
}

#[test]
fn audio_file_kinds() {
    assert_eq!(audio_file_kind("wav"), Some(AudioFileKind::Wav));
    assert_eq!(audio_file_kind("WAV"), Some(AudioFileKind::Wav));
    assert_eq!(audio_file_kind("Raw"), Some(AudioFileKind::Raw));
    assert_eq!(audio_file_kind("mp3"), None);
    assert_eq!(audio_file_kind(""), None);
}
