//! What the voice tools answer, and the decisions of the audio worker that
//! serves them. The worker's thread, channels and devices live in the
//! application.

use vstd::prelude::*;
use vstd::string::*;

use crate::download::{append_decimal, decimal};
use super::protocol::{session_mode_name, SessionMode};

verus! {

/// Voice used for synthesis when the request names none.
pub const DEFAULT_SYNTHESIS_VOICE: &'static str = "af_sarah";

/// Rate of synthesized speech, in Hz.
pub const SYNTHESIS_SAMPLE_RATE: u32 = 24000;

/// Rate at which the worker captures speech, in Hz.
pub const CAPTURE_RATE: u32 = 44100;

/// Parameters of the speak tool.
#[derive(Debug, Clone)]
pub struct SpeakParams {
    /// Text to speak.
    pub text: String,
    /// Voice identifier (e.g. af_bella, am_adam).
    pub voice: Option<String>,
}

/// Details of a capture and transcription.
#[derive(Debug, Clone)]
pub struct SttDebug {
    /// Audio backend used.
    pub backend: String,
    /// Samples captured.
    pub samples: usize,
    /// Capture rate.
    pub sample_rate: u32,
    /// Whether audio was available.
    pub audio_available: bool,
}

/// Answer of a transcription request.
#[derive(Debug, Clone)]
pub struct SttResponse {
    /// Transcribed text.
    pub text: String,
    /// Details of the capture.
    pub debug: Option<SttDebug>,
}

/// Debug information of the audio system, as the worker wrote it.
#[derive(Debug, Clone)]
pub struct AudioDebugInfo {
    /// Contents of the debug file.
    pub debug_file: String,
}

/// What the audio worker does next.
#[derive(Debug, Clone, Copy, PartialEq, Eq, Structural)]
pub enum AudioJob {
    /// Synthesize and play a pending speech request.
    Synthesize,
    /// Capture and transcribe for a pending listening request.
    Transcribe,
    /// Nothing is pending: wait briefly.
    Wait,
}

/// The next job: a pending speech request comes first, then a listening
/// request.
pub fn next_job(speech_pending: bool, listening_pending: bool) -> (j: AudioJob)
    ensures
        speech_pending ==> j == AudioJob::Synthesize,
        !speech_pending && listening_pending ==> j == AudioJob::Transcribe,
        !speech_pending && !listening_pending ==> j == AudioJob::Wait,
{
    if speech_pending {
        AudioJob::Synthesize
    } else if listening_pending {
        AudioJob::Transcribe
    } else {
        AudioJob::Wait
    }
}

/// The voice a request is synthesized with: the requested one, else
/// "af_sarah".
pub fn synthesis_voice(requested: Option<&str>) -> (v: &str)
    ensures
        requested matches Some(r) ==> v@ == r@,
        requested is None ==> v@ == "af_sarah"@,
{
    match requested {
        Some(r) => r,
        None => DEFAULT_SYNTHESIS_VOICE,
    }
}

impl SttResponse {
    /// Answer for a capture that got no samples: "[BLANK_AUDIO]", zero
    /// samples.
    pub fn blank(backend: &str) -> (r: Self)
        ensures
            r.text@ == "[BLANK_AUDIO]"@,
            r.debug matches Some(d) && d.backend@ == backend@ && d.samples == 0 && d.sample_rate
                == 44100 && d.audio_available,
    {
        SttResponse {
            text: String::from_str("[BLANK_AUDIO]"),
            debug: Some(
                SttDebug {
                    backend: String::from_str(backend),
                    samples: 0,
                    sample_rate: CAPTURE_RATE,
                    audio_available: true,
                },
            ),
        }
    }

    /// Answer for a transcription of `samples` captured samples.
    pub fn transcribed(text: String, backend: &str, samples: usize) -> (r: Self)
        ensures
            r.text == text,
            r.debug matches Some(d) && d.backend@ == backend@ && d.samples == samples
                && d.sample_rate == 44100 && d.audio_available,
    {
        SttResponse {
            text,
            debug: Some(
                SttDebug {
                    backend: String::from_str(backend),
                    samples,
                    sample_rate: CAPTURE_RATE,
                    audio_available: true,
                },
            ),
        }
    }
}

/// "`prefix`: `detail`", the form of the worker's error messages.
pub fn failure_message(prefix: &str, detail: &str) -> (m: String)
    ensures
        m@ == prefix@ + ": "@ + detail@,
{
    let mut m = String::from_str(prefix);
    m.append(": ");
    m.append(detail);
    m
}

/// Lines joined with newlines between them.
pub open spec fn joined_lines(lines: Seq<Seq<char>>) -> Seq<char>
    decreases lines.len(),
{
    if lines.len() == 0 {
        Seq::empty()
    } else if lines.len() == 1 {
        lines[0]
    } else {
        joined_lines(lines.drop_last()) + "\n"@ + lines.last()
    }
}

/// Joins lines with newlines between them.
pub fn join_lines(lines: &Vec<String>) -> (s: String)
    ensures
        s@ == joined_lines(lines@.map_values(|l: String| l@)),
{
    let ghost views = lines@.map_values(|l: String| l@);
    let mut s = String::new();
    let n = lines.len();
    let mut i: usize = 0;
    while i < n
        invariant
            n == lines@.len(),
            views == lines@.map_values(|l: String| l@),
            i <= n,
            s@ == joined_lines(views.take(i as int)),
        decreases n - i,
    {
        if i > 0 {
            s.append("\n");
        }
        s.append(lines[i].as_str());
        proof {
            assert(views.take(i + 1).drop_last() =~= views.take(i as int));
            if i == 0 {
                reveal_strlit("");
                assert(Seq::<char>::empty() + views[0] =~= views[0]);
            }
        }
        i = i + 1;
    }
    assert(views.take(n as int) =~= views);
    s
}

/// The voices the tools offer, with their descriptions.
pub open spec fn tool_voice_list() -> Seq<Seq<char>> {
    seq![
        "af_sarah: Sarah (American Female)"@,
        "af_sky: Sky (American Female)"@,
        "af_bella: Bella (American Female)"@,
        "af_nicole: Nicole (American Female)"@,
        "am_adam: Adam (American Male)"@,
        "am_michael: Michael (American Male)"@,
        "bf_emma: Emma (British Female)"@,
        "bf_isabella: Isabella (British Female)"@,
        "bm_george: George (British Male)"@,
        "bm_lewis: Lewis (British Male)"@,
    ]
}

/// The voices the tools offer, with their descriptions.
pub fn tool_voices() -> (v: Vec<String>)
    ensures
        v@.map_values(|l: String| l@) == tool_voice_list(),
{
    let mut v: Vec<String> = Vec::new();
    v.push(String::from_str("af_sarah: Sarah (American Female)"));
    v.push(String::from_str("af_sky: Sky (American Female)"));
    v.push(String::from_str("af_bella: Bella (American Female)"));
    v.push(String::from_str("af_nicole: Nicole (American Female)"));
    v.push(String::from_str("am_adam: Adam (American Male)"));
    v.push(String::from_str("am_michael: Michael (American Male)"));
    v.push(String::from_str("bf_emma: Emma (British Female)"));
    v.push(String::from_str("bf_isabella: Isabella (British Female)"));
    v.push(String::from_str("bm_george: George (British Male)"));
    v.push(String::from_str("bm_lewis: Lewis (British Male)"));
    assert(v@.map_values(|l: String| l@) =~= tool_voice_list());
    v
}

/// Answer of the speak tool: "Spoke: '`text`' with voice: `voice`", the
/// voice defaulting to "af_sarah".
pub fn speak_reply(text: &str, voice: Option<&str>) -> (s: String)
    ensures
        s@ == "Spoke: '"@ + text@ + "' with voice: "@ + (match voice {
            Some(v) => v@,
            None => "af_sarah"@,
        }),
{
    let mut s = String::from_str("Spoke: '");
    s.append(text);
    s.append("' with voice: ");
    s.append(synthesis_voice(voice));
    s
}

/// Answer of the listen tool: the text, and with details a line
/// "[Debug: `backend` backend, `samples` samples]".
pub fn listen_reply(resp: &SttResponse) -> (s: String)
    ensures
        resp.debug is None ==> s@ == resp.text@,
        resp.debug matches Some(d) ==> s@ == resp.text@ + "\n[Debug: "@ + d.backend@
            + " backend, "@ + decimal(d.samples as nat) + " samples]"@,
{
    let mut s = resp.text.clone();
    match &resp.debug {
        Some(d) => {
            s.append("\n[Debug: ");
            s.append(d.backend.as_str());
            s.append(" backend, ");
            append_decimal(&mut s, d.samples as u64);
            s.append(" samples]");
        },
        None => {},
    }
    s
}

/// Answer of the source listing: the sources one per line, or a note that
/// there are none.
pub fn sources_reply(sources: &Vec<String>) -> (s: String)
    ensures
        sources@.len() == 0 ==> s@ == "No audio input sources found"@,
        sources@.len() > 0 ==> s@ == joined_lines(sources@.map_values(|l: String| l@)),
{
    if sources.len() == 0 {
        String::from_str("No audio input sources found")
    } else {
        join_lines(sources)
    }
}

/// Index of the first newline at or after `i`, or the length when there
/// is none.
pub open spec fn next_newline(s: Seq<char>, i: int) -> int
    decreases s.len() - i,
{
    if i < 0 || i >= s.len() {
        s.len() as int
    } else if s[i] == '\n' {
        i
    } else {
        next_newline(s, i + 1)
    }
}

/// A line without the carriage return that ends it, if any.
pub open spec fn without_cr(l: Seq<char>) -> Seq<char> {
    if l.len() > 0 && l.last() == '\r' {
        l.drop_last()
    } else {
        l
    }
}

/// The lines of `s` from position `i` on (`str::lines`): split at each
/// newline, a carriage return before a newline dropped, no empty line
/// after a final newline.
pub open spec fn lines_from(s: Seq<char>, i: int) -> Seq<Seq<char>>
    decreases s.len() - i,
{
    if i < 0 || i >= s.len() {
        Seq::empty()
    } else {
        proof {
            lemma_next_newline_bounds(s, i);
        }
        let j = next_newline(s, i);
        if j < s.len() {
            seq![without_cr(s.subrange(i, j))] + lines_from(s, j + 1)
        } else {
            seq![s.subrange(i, j)]
        }
    }
}

/// The next newline is at or after `i`, only non-newlines stand before
/// it, and it is a newline unless it is the end.
pub proof fn lemma_next_newline_bounds(s: Seq<char>, i: int)
    requires
        0 <= i <= s.len(),
    ensures
        i <= next_newline(s, i) <= s.len(),
        forall|k: int| i <= k < next_newline(s, i) ==> s[k] != '\n',
        next_newline(s, i) < s.len() ==> s[next_newline(s, i)] == '\n',
    decreases s.len() - i,
{
    if i < s.len() && s[i] != '\n' {
        lemma_next_newline_bounds(s, i + 1);
    }
}

/// The lines of a text.
pub fn text_lines(text: &str) -> (v: Vec<String>)
    ensures
        v@.map_values(|l: String| l@) == lines_from(text@, 0),
{
    let chars = crate::text::chars_of(text);
    let n = chars.len();
    let mut v: Vec<String> = Vec::new();
    let mut i: usize = 0;
    while i < n
        invariant
            n == text@.len(),
            chars@ == text@,
            i <= n,
            v@.map_values(|l: String| l@) + lines_from(text@, i as int) == lines_from(text@, 0),
        decreases n - i,
    {
        proof {
            lemma_next_newline_bounds(text@, i as int);
        }
        let mut j: usize = i;
        while j < n && chars[j] != '\n'
            invariant
                n == text@.len(),
                chars@ == text@,
                i <= j <= n,
                j <= next_newline(text@, i as int),
                i <= next_newline(text@, i as int) <= n,
                forall|k: int| i <= k < next_newline(text@, i as int) ==> text@[k] != '\n',
                next_newline(text@, i as int) < n ==> text@[next_newline(text@, i as int)] == '\n',
            decreases n - j,
        {
            j = j + 1;
        }
        assert(j == next_newline(text@, i as int));
        let ghost before = v@.map_values(|l: String| l@);
        if j < n {
            let mut end = j;
            if end > i && chars[end - 1] == '\r' {
                end = end - 1;
            }
            let line = text.substring_char(i, end);
            proof {
                let full = text@.subrange(i as int, j as int);
                if j > i && text@[j - 1] == '\r' {
                    assert(full.last() == '\r');
                    assert(full.drop_last() =~= text@.subrange(i as int, end as int));
                } else {
                    assert(full =~= text@.subrange(i as int, end as int));
                }
            }
            v.push(String::from_str(line));
            proof {
                assert(v@.map_values(|l: String| l@) =~= before.push(without_cr(text@.subrange(i as int, j as int))));
                assert(lines_from(text@, i as int) == seq![without_cr(text@.subrange(i as int, j as int))]
                    + lines_from(text@, j + 1));
            }
            i = j + 1;
        } else {
            let line = text.substring_char(i, n);
            v.push(String::from_str(line));
            proof {
                assert(v@.map_values(|l: String| l@) =~= before.push(text@.subrange(i as int, n as int)));
                assert(lines_from(text@, n as int) =~= Seq::<Seq<char>>::empty());
            }
            i = n;
        }
    }
    proof {
        assert(lines_from(text@, n as int) =~= Seq::<Seq<char>>::empty());
        assert(v@.map_values(|l: String| l@) + Seq::<Seq<char>>::empty() =~= v@.map_values(|l: String| l@));
    }
    v
}

/// The lines of the status report: the server and its version, the
/// session mode, the engines, and, when the audio worker wrote debug
/// information, a blank line, a heading and that information indented.
pub open spec fn status_lines(version: Seq<char>, mode: SessionMode, debug_file: Seq<char>) -> Seq<Seq<char>> {
    let head = seq![
        "Thaleia MCP Server v"@ + version,
        "Session mode: "@ + session_mode_name(mode),
        "TTS: Kokoro (enabled)"@,
        "STT: Whisper (enabled)"@,
        "Audio: Enabled (thread-based)"@,
    ];
    if debug_file.len() == 0 {
        head
    } else {
        head + seq![Seq::<char>::empty(), "=== Audio Debug ==="@] + lines_from(debug_file, 0).map_values(
            |l: Seq<char>| "   "@ + l,
        )
    }
}

/// The status report of the tool server.
pub fn status_report(version: &str, mode: SessionMode, debug_file: &str) -> (s: String)
    ensures
        s@ == joined_lines(status_lines(version@, mode, debug_file@)),
{
    let mut lines: Vec<String> = Vec::new();
    let mut l0 = String::from_str("Thaleia MCP Server v");
    l0.append(version);
    lines.push(l0);
    let mut l1 = String::from_str("Session mode: ");
    l1.append(mode.name());
    lines.push(l1);
    lines.push(String::from_str("TTS: Kokoro (enabled)"));
    lines.push(String::from_str("STT: Whisper (enabled)"));
    lines.push(String::from_str("Audio: Enabled (thread-based)"));
    let ghost head = lines@.map_values(|l: String| l@);
    if debug_file.unicode_len() > 0 {
        lines.push(String::new());
        lines.push(String::from_str("=== Audio Debug ==="));
        let ghost mid = lines@.map_values(|l: String| l@);
        let debug_lines = text_lines(debug_file);
        let ghost dl = lines_from(debug_file@, 0);
        let m = debug_lines.len();
        let mut k: usize = 0;
        while k < m
            invariant
                m == dl.len(),
                debug_lines@.map_values(|l: String| l@) == dl,
                k <= m,
                lines@.map_values(|l: String| l@) == mid + dl.take(k as int).map_values(
                    |l: Seq<char>| "   "@ + l,
                ),
            decreases m - k,
        {
            let ghost prev = lines@.map_values(|l: String| l@);
            let mut line = String::from_str("   ");
            line.append(debug_lines[k].as_str());
            proof {
                assert(debug_lines@.map_values(|l: String| l@)[k as int] == debug_lines@[k as int]@);
                assert(line@ == "   "@ + dl[k as int]);
            }
            lines.push(line);
            proof {
                assert(lines@.map_values(|l: String| l@) =~= prev.push("   "@ + dl[k as int]));
                assert(dl.take(k + 1).map_values(|l: Seq<char>| "   "@ + l) =~= dl.take(
                    k as int,
                ).map_values(|l: Seq<char>| "   "@ + l).push("   "@ + dl[k as int]));
            }
            k = k + 1;
        }
        proof {
            assert(dl.take(m as int) =~= dl);
        }
    }
    let s = join_lines(&lines);
    proof {
        reveal_strlit("");
        assert(lines@.map_values(|l: String| l@) =~= status_lines(version@, mode, debug_file@));
    }
    s
}

} // verus!
