//! Speech-to-text: backend names, language codes, transcription results
//! and Whisper model selection. The models themselves run in the
//! application.

use vstd::prelude::*;
use vstd::string::*;

use crate::text::{all_ascii, ascii_lower, lowercase, str_eq, to_lowercase};

verus! {

/// Name of a speech-to-text backend.
#[derive(Debug, Clone, PartialEq, Eq)]
pub enum BackendName {
    /// Whisper (OpenAI).
    Whisper,
    /// Qwen3-ASR (Alibaba).
    Qwen3Asr,
    /// A backend of another name.
    Custom(String),
}

impl Default for BackendName {
    fn default() -> (b: Self)
        ensures
            b is Whisper,
    {
        BackendName::Whisper
    }
}

/// The text of a backend name.
pub open spec fn backend_name_text(b: BackendName) -> Seq<char> {
    match b {
        BackendName::Whisper => "whisper"@,
        BackendName::Qwen3Asr => "qwen3-asr"@,
        BackendName::Custom(s) => s@,
    }
}

impl BackendName {
    /// The name as text.
    pub fn as_str(&self) -> (s: &str)
        ensures
            s@ == backend_name_text(*self),
    {
        match self {
            BackendName::Whisper => "whisper",
            BackendName::Qwen3Asr => "qwen3-asr",
            BackendName::Custom(s) => s.as_str(),
        }
    }
}

/// An ASCII letter.
pub open spec fn is_ascii_letter(c: char) -> bool {
    ('a' <= c && c <= 'z') || ('A' <= c && c <= 'Z')
}

/// A valid language code as given: exactly two ASCII letters.
pub open spec fn valid_code(s: Seq<char>) -> bool {
    s.len() == 2 && is_ascii_letter(s[0]) && is_ascii_letter(s[1])
}

/// The code kept for a valid one: its lowercase form.
pub open spec fn code_of(s: Seq<char>) -> Seq<char> {
    ascii_lower(s)
}

/// The code `From<&str>` gives: the code when valid, else "en".
pub open spec fn code_or_default(s: Seq<char>) -> Seq<char> {
    if valid_code(s) {
        code_of(s)
    } else {
        "en"@
    }
}

fn is_ascii_letter_exec(c: char) -> (b: bool)
    ensures
        b == is_ascii_letter(c),
{
    ('a' <= c && c <= 'z') || ('A' <= c && c <= 'Z')
}

/// ISO 639-1 language code: two lowercase ASCII letters.
#[derive(Debug, Clone, PartialEq, Eq)]
pub struct LanguageCode(String);

impl View for LanguageCode {
    type V = Seq<char>;

    closed spec fn view(&self) -> Seq<char> {
        self.0@
    }
}

/// The ten common language codes, in order.
pub open spec fn common_code_list() -> Seq<Seq<char>> {
    seq![
        "en"@,
        "zh"@,
        "es"@,
        "fr"@,
        "de"@,
        "ja"@,
        "ko"@,
        "ru"@,
        "pt"@,
        "it"@,
    ]
}

impl LanguageCode {
    /// A code from text: `None` unless the text is exactly two ASCII
    /// letters, which are kept in lowercase.
    pub fn new(code: &str) -> (r: Option<Self>)
        ensures
            r is Some <==> valid_code(code@),
            r matches Some(c) ==> c@ == code_of(code@),
    {
        let n = code.unicode_len();
        if n != 2 {
            return None;
        }
        let c0 = code.get_char(0);
        let c1 = code.get_char(1);
        if is_ascii_letter_exec(c0) && is_ascii_letter_exec(c1) {
            proof {
                assert(all_ascii(code@));
            }
            Some(LanguageCode(to_lowercase(code)))
        } else {
            None
        }
    }

    /// A code that is already known to be two lowercase letters.
    fn known(code: &'static str) -> (r: Self)
        ensures
            r@ == code@,
    {
        LanguageCode(String::from_str(code))
    }

    /// The code as text.
    pub fn as_str(&self) -> (s: &str)
        ensures
            s@ == self@,
    {
        self.0.as_str()
    }

    /// The code from text, or "en" when the text is not a valid code.
    pub fn from_str_or_default(s: &str) -> (r: Self)
        ensures
            r@ == code_or_default(s@),
    {
        match Self::new(s) {
            Some(c) => c,
            None => {
                let en = Self::known("en");
                proof {
                    reveal_strlit("en");
                }
                en
            },
        }
    }

    /// The common language codes of speech-to-text backends: en, zh, es,
    /// fr, de, ja, ko, ru, pt, it.
    pub fn common_codes() -> (v: Vec<Self>)
        ensures
            v@.len() == 10,
            forall|i: int| 0 <= i < 10 ==> #[trigger] v@[i]@ == common_code_list()[i],
    {
        let mut v: Vec<Self> = Vec::new();
        v.push(Self::known("en"));
        v.push(Self::known("zh"));
        v.push(Self::known("es"));
        v.push(Self::known("fr"));
        v.push(Self::known("de"));
        v.push(Self::known("ja"));
        v.push(Self::known("ko"));
        v.push(Self::known("ru"));
        v.push(Self::known("pt"));
        v.push(Self::known("it"));
        v
    }
}

impl From<&str> for LanguageCode {
    fn from(s: &str) -> (r: Self)
        ensures
            r@ == code_or_default(s@),
    {
        Self::from_str_or_default(s)
    }
}

impl vstd::std_specs::convert::FromSpecImpl<&str> for LanguageCode {
    open spec fn obeys_from_spec() -> bool {
        false
    }

    open spec fn from_spec(v: &str) -> Self {
        arbitrary()
    }
}

impl Default for LanguageCode {
    fn default() -> (c: Self)
        ensures
            c@ == "en"@,
    {
        Self::known("en")
    }
}

/// Metadata of a speech-to-text backend.
#[derive(Debug, Clone)]
pub struct SttInfo {
    /// Backend name.
    pub name: BackendName,
    /// Supported language codes.
    pub languages: Vec<LanguageCode>,
    /// Whether the backend transcribes while audio streams in.
    pub supports_streaming: bool,
    /// Model size, when there is one.
    pub model_size: Option<String>,
}

impl SttInfo {
    /// Metadata without a model size.
    pub fn new(name: BackendName, languages: Vec<LanguageCode>, supports_streaming: bool) -> (i:
        Self)
        ensures
            i.name == name,
            i.languages@ == languages@,
            i.supports_streaming == supports_streaming,
            i.model_size is None,
    {
        SttInfo { name, languages, supports_streaming, model_size: None }
    }

    /// The same metadata with a model size.
    pub fn with_model(self, size: &str) -> (i: Self)
        ensures
            i.name == self.name,
            i.languages@ == self.languages@,
            i.supports_streaming == self.supports_streaming,
            i.model_size matches Some(m) && m@ == size@,
    {
        SttInfo { model_size: Some(String::from_str(size)), ..self }
    }
}

/// A transcription result.
#[derive(Debug, Clone)]
pub struct Transcription {
    /// The transcribed text.
    pub text: String,
    /// The language, when detected.
    pub language: Option<LanguageCode>,
    /// Whether the result is partial.
    pub is_partial: bool,
}

impl Transcription {
    /// A complete transcription with no language.
    pub fn new(text: String) -> (t: Self)
        ensures
            t == (Transcription { text, language: None, is_partial: false }),
    {
        Transcription { text, language: None, is_partial: false }
    }

    /// The same transcription with a detected language.
    pub fn with_language(self, lang: LanguageCode) -> (t: Self)
        ensures
            t == (Transcription { language: Some(lang), ..self }),
    {
        Transcription { language: Some(lang), ..self }
    }

    /// The same transcription, marked partial.
    pub fn partial(self) -> (t: Self)
        ensures
            t == (Transcription { is_partial: true, ..self }),
    {
        Transcription { is_partial: true, ..self }
    }
}

impl From<String> for Transcription {
    fn from(s: String) -> (t: Self) {
        Self::new(s)
    }
}

impl vstd::std_specs::convert::FromSpecImpl<String> for Transcription {
    open spec fn obeys_from_spec() -> bool {
        true
    }

    open spec fn from_spec(v: String) -> Self {
        Transcription { text: v, language: None, is_partial: false }
    }
}

/// Selectable speech-to-text backend.
#[derive(Debug, Clone, Copy, PartialEq, Eq, Structural)]
pub enum SttBackendType {
    /// Whisper (OpenAI).
    Whisper,
}

impl Default for SttBackendType {
    fn default() -> (t: Self)
        ensures
            t == SttBackendType::Whisper,
    {
        SttBackendType::Whisper
    }
}

impl SttBackendType {
    /// Name of the backend type.
    pub fn name(&self) -> (s: &'static str)
        ensures
            s@ == "whisper"@,
    {
        match self {
            SttBackendType::Whisper => "whisper",
        }
    }
}

/// Whisper model size.
#[derive(Debug, Clone, Copy, PartialEq, Eq, Structural)]
pub enum ModelSize {
    /// Fastest.
    Tiny,
    /// Balanced.
    Base,
    /// Most accurate, slowest.
    Small,
}

impl Default for ModelSize {
    fn default() -> (m: Self)
        ensures
            m == ModelSize::Tiny,
    {
        ModelSize::Tiny
    }
}

/// Whisper's name of a model size.
pub open spec fn model_name_of(m: ModelSize) -> Seq<char> {
    match m {
        ModelSize::Tiny => "tiny"@,
        ModelSize::Base => "base"@,
        ModelSize::Small => "small"@,
    }
}

/// The model size a name stands for.
pub open spec fn model_size_named(name: Seq<char>) -> Option<ModelSize> {
    if name == "tiny"@ {
        Some(ModelSize::Tiny)
    } else if name == "base"@ {
        Some(ModelSize::Base)
    } else if name == "small"@ {
        Some(ModelSize::Small)
    } else {
        None
    }
}

impl ModelSize {
    /// Whisper's name for the size.
    pub fn model_name(&self) -> (s: &'static str)
        ensures
            s@ == model_name_of(*self),
    {
        match self {
            ModelSize::Tiny => "tiny",
            ModelSize::Base => "base",
            ModelSize::Small => "small",
        }
    }

    /// The size a name stands for: "tiny", "base" or "small".
    pub fn from_name(name: &str) -> (m: Option<Self>)
        ensures
            m == model_size_named(name@),
    {
        if str_eq(name, "tiny") {
            Some(ModelSize::Tiny)
        } else if str_eq(name, "base") {
            Some(ModelSize::Base)
        } else if str_eq(name, "small") {
            Some(ModelSize::Small)
        } else {
            None
        }
    }

    /// File name of the cached model: the name and ".bin".
    pub fn file_name(&self) -> (s: String)
        ensures
            s@ == model_name_of(*self) + ".bin"@,
    {
        let mut s = String::from_str(self.model_name());
        s.append(".bin");
        s
    }

    /// Where the model is downloaded from (ggml models of whisper.cpp).
    pub fn download_url(&self) -> (s: String)
        ensures
            s@ == "https://huggingface.co/ggerganov/whisper.cpp/resolve/main/ggml-"@
                + model_name_of(*self) + ".bin"@,
    {
        let mut s = String::from_str(
            "https://huggingface.co/ggerganov/whisper.cpp/resolve/main/ggml-",
        );
        s.append(self.model_name());
        s.append(".bin");
        s
    }
}

/// Model size for transcription from a command-line option: "tiny",
/// "small", or "base" (also when no size is given); `None` for any other
/// name.
pub open spec fn listen_size_of(opt: Option<Seq<char>>) -> Option<ModelSize> {
    match opt {
        None => Some(ModelSize::Base),
        Some(name) => model_size_named(name),
    }
}

/// Model size for transcription from a command-line option.
pub fn listen_model_size(opt: Option<&str>) -> (m: Option<ModelSize>)
    ensures
        m == listen_size_of(
            match opt {
                Some(s) => Some(s@),
                None => None,
            },
        ),
{
    match opt {
        None => Some(ModelSize::Base),
        Some(name) => ModelSize::from_name(name),
    }
}

/// Models to download for a command-line option: the named one, or all
/// three from smallest to largest when none is named; `None` for an
/// unknown name.
pub fn models_to_download(opt: Option<&str>) -> (v: Option<Vec<ModelSize>>)
    ensures
        opt is None ==> (v matches Some(l) && l@ == seq![
            ModelSize::Tiny,
            ModelSize::Base,
            ModelSize::Small,
        ]),
        opt matches Some(name) ==> (match model_size_named(name@) {
            Some(m) => v matches Some(l) && l@ == seq![m],
            None => v is None,
        }),
{
    match opt {
        None => {
            let mut l: Vec<ModelSize> = Vec::new();
            l.push(ModelSize::Tiny);
            l.push(ModelSize::Base);
            l.push(ModelSize::Small);
            Some(l)
        },
        Some(name) => match ModelSize::from_name(name) {
            Some(m) => {
                let mut l: Vec<ModelSize> = Vec::new();
                l.push(m);
                Some(l)
            },
            None => None,
        },
    }
}

/// The transcript of a run of recognized segments: segment texts joined
/// with single spaces. `None` is a segment that could not be read and is
/// skipped; `Some(None)` is a segment whose text could not be decoded: it
/// still adds its separating space but no text.
pub open spec fn transcript_of(segments: Seq<Option<Option<Seq<char>>>>) -> Seq<char>
    decreases segments.len(),
{
    if segments.len() == 0 {
        Seq::empty()
    } else {
        let before = transcript_of(segments.drop_last());
        match segments.last() {
            None => before,
            Some(t) => {
                let spaced = if before.len() > 0 {
                    before + " "@
                } else {
                    before
                };
                match t {
                    Some(x) => spaced + x,
                    None => spaced,
                }
            },
        }
    }
}

/// The views of segments.
pub open spec fn segment_views(segments: Seq<Option<Option<String>>>) -> Seq<Option<Option<Seq<char>>>> {
    segments.map_values(
        |o: Option<Option<String>>| match o {
            Some(Some(t)) => Some(Some(t@)),
            Some(None) => Some(None),
            None => None,
        },
    )
}

/// Joins recognized segments into the transcript.
pub fn join_segments(segments: &Vec<Option<Option<String>>>) -> (text: String)
    ensures
        text@ == transcript_of(segment_views(segments@)),
{
    let ghost views = segment_views(segments@);
    let mut text = String::new();
    let n = segments.len();
    let mut i: usize = 0;
    while i < n
        invariant
            n == segments@.len(),
            views == segment_views(segments@),
            i <= n,
            text@ == transcript_of(views.take(i as int)),
        decreases n - i,
    {
        proof {
            assert(views.take(i + 1).drop_last() =~= views.take(i as int));
        }
        match &segments[i] {
            Some(t) => {
                if text.unicode_len() > 0 {
                    text.append(" ");
                }
                match t {
                    Some(x) => {
                        text.append(x.as_str());
                    },
                    None => {},
                }
            },
            None => {},
        }
        i = i + 1;
    }
    proof {
        assert(views.take(n as int) =~= views);
    }
    text
}

/// Kind of an audio file by its extension.
#[derive(Debug, Clone, Copy, PartialEq, Eq, Structural)]
pub enum AudioFileKind {
    /// A WAV file.
    Wav,
    /// Raw 16-bit little-endian mono PCM.
    Raw,
}

/// The kind of audio file an extension, lowercased, names.
pub open spec fn file_kind_given(lower: Seq<char>) -> Option<AudioFileKind> {
    if lower == "wav"@ {
        Some(AudioFileKind::Wav)
    } else if lower == "raw"@ {
        Some(AudioFileKind::Raw)
    } else {
        None
    }
}

/// The kind of audio file an extension names, in any case.
pub open spec fn file_kind_of(ext: Seq<char>) -> Option<AudioFileKind> {
    file_kind_given(lowercase(ext))
}

/// The kind of audio file of an extension: "wav" or "raw" in any case.
pub fn audio_file_kind(ext: &str) -> (k: Option<AudioFileKind>)
    ensures
        k == file_kind_of(ext@),
{
    let lower = to_lowercase(ext);
    if str_eq(lower.as_str(), "wav") {
        Some(AudioFileKind::Wav)
    } else if str_eq(lower.as_str(), "raw") {
        Some(AudioFileKind::Raw)
    } else {
        None
    }
}

} // verus!
