use thaleia::mcp::heuristics::{analyze_sentiment, estimate_tokens, extract_outcome, extract_topic};
use thaleia::mcp::protocol::{
    mcp_tools, method_not_found_message, route_method, route_tool, unknown_tool_response,
    user_friendly_error, RpcRoute, SessionMode, ToolKind, ToolResponse,
};
use thaleia::mcp::replies::{
    failure_message, join_lines, listen_reply, next_job, sources_reply, speak_reply,
    status_report, synthesis_voice, text_lines, tool_voices, AudioJob, SttResponse,
};
use thaleia::mcp::session::{MemoryMode, SessionState};

#[test]
fn test_session_new() {
    let session = SessionState::new();
    assert_eq!(session.mode, MemoryMode::Standard);
}

#[test]
fn test_ephemeral_mode() {
    let mut session = SessionState::with_mode(MemoryMode::Ephemeral);
    session.add_exchange("Hello", "Hi there!");
    assert_eq!(session.exchange_count(), 0);
    assert_eq!(session.note_count(), 0);
}

#[test]
fn test_sentiment_analysis() {
    assert!(analyze_sentiment("This is great!") > 0);
    assert!(analyze_sentiment("I have a problem") < 0);
    assert!(analyze_sentiment("What is the time?") <= 0);
}

#[test]
fn test_topic_extraction() {
    assert_eq!(extract_topic("I need help with Rust code"), "help request");
    assert_eq!(extract_topic("Rust code is great"), "programming");
    assert_eq!(extract_topic("How is the weather?"), "weather");
    assert_eq!(extract_topic("Hello there"), "greeting");
}

#[test]
fn test_context_generation() {
    let mut session = SessionState::new();
    session.add_exchange("I need help with Rust", "I can help with Rust!");
    let context = session.get_context();
    assert!(context.contains("Recent conversation"));
    assert!(context.contains("Rust"));
}

#[test]
fn test_tool_names() {
    let expected_tools = ["thaleia_speak", "thaleia_listen", "thaleia_list_voices", "thaleia_get_status"];
    assert_eq!(expected_tools.len(), 4);
    let tools = mcp_tools();
    assert_eq!(tools.len(), 4);
    for (tool, name) in tools.iter().zip(expected_tools.iter()) {
        assert_eq!(tool.name, *name);
        assert!(!tool.description.is_empty());
    }
}

// ---- session memory ----

#[test]
fn recent_memory_keeps_three_newest() {
    let mut session = SessionState::new();
    for (u, a) in [("one", "a"), ("two", "b"), ("three", "c"), ("four", "d"), ("five", "e")] {
        session.add_exchange(u, a);
    }
    assert_eq!(session.exchange_count(), 3);
    assert_eq!(session.note_count(), 5);
    let context = session.get_context();
    assert!(!context.contains("User: one"));
    assert!(!context.contains("User: two"));
    assert!(context.contains("User: three\n  Thaleia: c\n"));
    assert!(context.contains("User: five\n  Thaleia: e\n"));
}

#[test]
fn notes_are_bounded_by_mode() {
    let mut standard = SessionState::new();
    let mut longterm = SessionState::with_mode(MemoryMode::Longterm);
    for _ in 0..25 {
        standard.add_exchange("hello", "hi");
        longterm.add_exchange("hello", "hi");
    }
    assert_eq!(standard.note_count(), 20);
    assert_eq!(longterm.note_count(), 25);
}

#[test]
fn context_exact_text() {
    let mut session = SessionState::new();
    let note = session.add_exchange("Great weather today!", "We decided to go out.").unwrap();
    assert_eq!(note.topic, "weather");
    assert_eq!(note.sentiment, 1);
    assert_eq!(note.outcome, Some("decision made".to_string()));
    assert_eq!(note.timestamp, 1);
    assert!(session.accepts_pin());
    session.pin_memory("likes tea", vec!["prefs".to_string()]);
    assert_eq!(session.pinned_count(), 1);
    assert!(session.accepts_exchange("more", "text"));
    assert_eq!(
        session.get_context(),
        "Recent conversation:\n  User: Great weather today!\n  Thaleia: We decided to go out.\n\nTopics discussed: weather\nOverall mood: positive\n\nPinned memories:\n  - likes tea\n"
    );
}

#[test]
fn ephemeral_context_is_empty() {
    let mut session = SessionState::with_mode(MemoryMode::Ephemeral);
    assert!(session.add_exchange("Hello there", "Hi").is_none());
    session.pin_memory("kept anyway", vec![]);
    assert_eq!(session.get_context(), "");
}

#[test]
fn token_budget_grows_by_estimate() {
    let mut session = SessionState::new();
    assert_eq!(session.budget_info(), (0, 100_000));
    assert!(session.under_budget());
    session.add_exchange("abcdefgh", "abcd");
    assert_eq!(session.budget_info().0, 3);
    assert_eq!(estimate_tokens("abcdefgh"), 2);
    assert_eq!(estimate_tokens("abc"), 0);
}

#[test]
fn memory_mode_names() {
    assert_eq!(MemoryMode::from_name("ephemeral"), Some(MemoryMode::Ephemeral));
    assert_eq!(MemoryMode::from_name("standard"), Some(MemoryMode::Standard));
    assert_eq!(MemoryMode::from_name("longterm"), Some(MemoryMode::Longterm));
    assert_eq!(MemoryMode::from_name("forever"), None);
    assert_eq!(MemoryMode::default(), MemoryMode::Ephemeral);
}

// ---- heuristics ----

#[test]
fn topic_fallback_uses_first_word() {
    assert_eq!(extract_topic("Quantum, physics rocks"), "quantum");
    assert_eq!(extract_topic("Yes ok"), "general");
    assert_eq!(extract_topic(""), "general");
    assert_eq!(extract_topic("   "), "general");
}

#[test]
fn sentiment_is_clamped() {
    assert_eq!(analyze_sentiment("excellent and great and perfect!"), 1);
    assert_eq!(analyze_sentiment("good!"), 1);
    assert_eq!(analyze_sentiment("bad problem?"), -1);
    assert_eq!(analyze_sentiment("plain"), 0);
    assert_eq!(analyze_sentiment("good, but a problem"), 0);
}

#[test]
fn long_positive_session_has_positive_mood() {
    let mut session = SessionState::with_mode(MemoryMode::Longterm);
    for _ in 0..50 {
        session.add_exchange("This is excellent!", "ok");
    }
    assert_eq!(session.note_count(), 50);
    assert!(session.get_context().contains("Overall mood: positive"));
}

#[test]
fn long_negative_session_has_negative_mood() {
    let mut session = SessionState::with_mode(MemoryMode::Longterm);
    for _ in 0..150 {
        session.add_exchange("a terrible problem", "ok");
    }
    assert_eq!(session.note_count(), 100);
    assert!(session.get_context().contains("Overall mood: somewhat negative"));
}

#[test]
fn outcomes() {
    assert_eq!(extract_outcome("We AGREED on it"), Some("decision made".to_string()));
    assert_eq!(extract_outcome("I found out why"), Some("information learned".to_string()));
    assert_eq!(extract_outcome("I will do it"), Some("action planned".to_string()));
    assert_eq!(extract_outcome("Nothing here"), None);
}

// ---- protocol ----

#[test]
fn routing_of_methods_and_tools() {
    assert_eq!(route_method("initialize"), RpcRoute::Initialize);
    assert_eq!(route_method("tools/list"), RpcRoute::ToolsList);
    assert_eq!(route_method("tools/call"), RpcRoute::ToolsCall);
    assert_eq!(route_method("notifications/initialized"), RpcRoute::Initialized);
    assert_eq!(route_method("ping"), RpcRoute::MethodNotFound);
    assert_eq!(method_not_found_message("ping"), "Method not found: ping");
    assert_eq!(route_tool("thaleia_speak"), Some(ToolKind::Speak));
    assert_eq!(route_tool("thaleia_get_status"), Some(ToolKind::GetStatus));
    assert_eq!(route_tool("speak"), None);
}

#[test]
fn tool_responses() {
    let ok = ToolResponse::text("hi".to_string());
    assert_eq!(ok.content.len(), 1);
    assert_eq!(ok.content[0].content_type, "text");
    assert_eq!(ok.is_error, None);
    let err = ToolResponse::error("bad".to_string());
    assert_eq!(err.is_error, Some(true));
    let unknown = unknown_tool_response("dance");
    assert_eq!(unknown.content[0].text, "Unknown tool: dance");
    assert_eq!(unknown.is_error, Some(true));
}

#[test]
fn friendly_errors() {
    assert_eq!(user_friendly_error("audio device lost"), "I can't find my voice right now. Check your audio settings!");
    assert_eq!(user_friendly_error("capture failed"), "I can't hear you. Check if my microphone is connected!");
    assert_eq!(user_friendly_error("TTS exploded"), "I had trouble finding the right words. Let me try again!");
    assert_eq!(user_friendly_error("Whisper crashed"), "I didn't catch that. Could you speak again?");
    assert_eq!(user_friendly_error("network down"), "I'm downloading my voice models. This might take a moment...");
    assert_eq!(user_friendly_error("oops"), "Oops! Something went wrong: oops");
}

#[test]
fn session_modes() {
    assert_eq!(SessionMode::from_setting("ephemeral"), SessionMode::Ephemeral);
    assert_eq!(SessionMode::from_setting("longterm"), SessionMode::Longterm);
    assert_eq!(SessionMode::from_setting("whatever"), SessionMode::Standard);
    assert_eq!(SessionMode::default(), SessionMode::Standard);
}

// ---- replies ----

#[test]
fn audio_worker_decisions() {
    assert_eq!(next_job(true, true), AudioJob::Synthesize);
    assert_eq!(next_job(false, true), AudioJob::Transcribe);
    assert_eq!(next_job(false, false), AudioJob::Wait);
    assert_eq!(synthesis_voice(None), "af_sarah");
    assert_eq!(synthesis_voice(Some("am_adam")), "am_adam");
    assert_eq!(failure_message("Capture failed", "no mic"), "Capture failed: no mic");
}

#[test]
fn tool_reply_texts() {
    assert_eq!(speak_reply("Hi", None), "Spoke: 'Hi' with voice: af_sarah");
    assert_eq!(speak_reply("Hi", Some("bf_emma")), "Spoke: 'Hi' with voice: bf_emma");
    let blank = SttResponse::blank("sdl2");
    assert_eq!(listen_reply(&blank), "[BLANK_AUDIO]\n[Debug: sdl2 backend, 0 samples]");
    let heard = SttResponse::transcribed("hello".to_string(), "rodio", 44100);
    assert_eq!(listen_reply(&heard), "hello\n[Debug: rodio backend, 44100 samples]");
    let plain = SttResponse { text: "x".to_string(), debug: None };
    assert_eq!(listen_reply(&plain), "x");
    assert_eq!(sources_reply(&vec![]), "No audio input sources found");
    assert_eq!(sources_reply(&vec!["a".to_string(), "b".to_string()]), "a\nb");
    assert_eq!(join_lines(&vec!["one".to_string()]), "one");
    let voices = tool_voices();
    assert_eq!(voices.len(), 10);
    assert_eq!(voices[0], "af_sarah: Sarah (American Female)");
    assert_eq!(voices[9], "bm_lewis: Lewis (British Male)");
}

#[test]
fn lines_like_str_lines() {
    for text in ["", "a", "a\n", "a\nb", "a\r\nb\r\n", "\n\n", "x\ry", "end\r", "one\n\ntwo"] {
        let expected: Vec<String> = text.lines().map(|l| l.to_string()).collect();
        assert_eq!(text_lines(text), expected, "for {:?}", text);
    }
}

#[test]
fn status_report_text() {
    assert_eq!(
        status_report("0.1.0", SessionMode::Standard, ""),
        "Thaleia MCP Server v0.1.0\nSession mode: Standard\nTTS: Kokoro (enabled)\nSTT: Whisper (enabled)\nAudio: Enabled (thread-based)"
    );
    assert_eq!(
        status_report("0.1.0", SessionMode::Longterm, "backend=sdl2\nok\n"),
        "Thaleia MCP Server v0.1.0\nSession mode: Longterm\nTTS: Kokoro (enabled)\nSTT: Whisper (enabled)\nAudio: Enabled (thread-based)\n\n=== Audio Debug ===\n   backend=sdl2\n   ok"
    );
    assert_eq!(SessionMode::Ephemeral.name(), "Ephemeral");
}

#[test]
fn run_with_pins_keeps_newest_exchanges_in_time_order() {
    let mut session = SessionState::with_mode(MemoryMode::Standard);
    let mut times = Vec::new();
    for i in 0..25 {
        let user = format!("message number {}", i);
        let note = session.add_exchange(&user, "noted").unwrap();
        times.push(note.timestamp);
        if i % 5 == 0 {
            session.pin_memory("pin", vec![]);
        }
    }
    assert!(times.windows(2).all(|w| w[0] < w[1]));
    assert_eq!(times[0], 1);
    assert_eq!(times[1], 3);
    assert_eq!(session.exchange_count(), 3);
    assert_eq!(session.note_count(), 20);
    assert_eq!(session.pinned_count(), 5);
    let context = session.get_context();
    assert!(context.contains("User: message number 22\n"));
    assert!(context.contains("User: message number 24\n"));
    assert!(!context.contains("User: message number 21\n"));
}

#[test]
fn public_fields_match_accessors() {
    let session = SessionState::with_mode(MemoryMode::Longterm);
    assert_eq!(session.memory_mode(), session.mode);
    assert_eq!(session.session_start(), session.start_time);
    assert_eq!(session.budget_info().0, session.token_budget_used);
}

#[test]
fn token_count_only_grows() {
    let mut session = SessionState::new();
    session.add_exchange("abcdefgh", "abcdefgh");
    assert_eq!(session.budget_info().0, 4);
    session.pin_memory("note", vec![]);
    assert_eq!(session.budget_info().0, 4);
    session.add_exchange("abcd", "");
    assert_eq!(session.budget_info().0, 5);
    assert!(session.under_budget());
}
