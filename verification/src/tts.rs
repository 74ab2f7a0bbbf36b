//! Text-to-speech: voices, the engine front end, and the pronunciation
//! fixes applied to text before synthesis. Synthesis itself runs in the
//! application.

use vstd::prelude::*;
use vstd::string::*;

use crate::error::Error;
use crate::text::{lemma_replace_absent, occurs_at, replace, replace_all, seq_contains};

verus! {

/// Voice identifier.
#[derive(Debug, Clone, PartialEq, Eq, Hash)]
pub struct VoiceId(pub String);

impl VoiceId {
    /// A voice identifier.
    pub fn new(id: &str) -> (v: Self)
        ensures
            v.0@ == id@,
    {
        VoiceId(String::from_str(id))
    }

    /// The identifier as text.
    pub fn as_str(&self) -> (s: &str)
        ensures
            s@ == self.0@,
    {
        self.0.as_str()
    }
}

/// Voice metadata.
#[derive(Debug, Clone)]
pub struct Voice {
    /// Voice identifier.
    pub id: VoiceId,
    /// Human-readable name.
    pub name: String,
    /// Language code (e.g. "en").
    pub language: String,
}

/// A voice as (identifier, name, language).
pub open spec fn voice_view(v: Voice) -> (Seq<char>, Seq<char>, Seq<char>) {
    (v.id.0@, v.name@, v.language@)
}

impl Voice {
    /// Voice metadata.
    pub fn new(id: VoiceId, name: &str, language: &str) -> (v: Self)
        ensures
            v.id == id,
            v.name@ == name@,
            v.language@ == language@,
    {
        Voice { id, name: String::from_str(name), language: String::from_str(language) }
    }
}

fn voice(id: &str, name: &str, language: &str) -> (v: Voice)
    ensures
        voice_view(v) == (id@, name@, language@),
{
    Voice::new(VoiceId::new(id), name, language)
}

/// The built-in voices: Sarah, Sky, Bella, Nicole and Adam, all English.
pub open spec fn built_in_voice_list() -> Seq<(Seq<char>, Seq<char>, Seq<char>)> {
    seq![
        ("af_sarah"@, "Sarah"@, "en"@),
        ("af_sky"@, "Sky"@, "en"@),
        ("af_bella"@, "Bella"@, "en"@),
        ("af_nicole"@, "Nicole"@, "en"@),
        ("am_adam"@, "Adam"@, "en"@),
    ]
}

/// The voices of the Kokoro model, American and British English first.
pub open spec fn kokoro_voice_list() -> Seq<(Seq<char>, Seq<char>, Seq<char>)> {
    seq![
        ("af_sarah"@, "Sarah"@, "en-US"@),
        ("af_sky"@, "Sky"@, "en-US"@),
        ("af_bella"@, "Bella"@, "en-US"@),
        ("af_nicole"@, "Nicole"@, "en-US"@),
        ("af_nicole_low"@, "Nicole (Low)"@, "en-US"@),
        ("am_adam"@, "Adam"@, "en-US"@),
        ("am_michael"@, "Michael"@, "en-US"@),
        ("bf_emma"@, "Emma"@, "en-GB"@),
        ("bf_isabella"@, "Isabella"@, "en-GB"@),
        ("bm_george"@, "George"@, "en-GB"@),
        ("bm_lewis"@, "Lewis"@, "en-GB"@),
        ("ef_dora"@, "Dora"@, "es"@),
        ("ef_giulia"@, "Giulia"@, "it"@),
        ("jf_ai"@, "Ai"@, "ja"@),
        ("zf_xiaoni"@, "Xiaoni"@, "zh"@),
    ]
}

/// Whether a list of voices is the given list of (identifier, name,
/// language).
pub open spec fn voices_are(v: Seq<Voice>, l: Seq<(Seq<char>, Seq<char>, Seq<char>)>) -> bool {
    v.len() == l.len() && forall|i: int| 0 <= i < v.len() ==> #[trigger] voice_view(v[i]) == l[i]
}

/// The text-to-speech engine front end. Synthesis is done by the
/// application's speech model; the engine lists the voices and names the
/// default one.
#[derive(Debug)]
pub struct TtsEngine {
    _marker: (),
}

impl TtsEngine {
    /// Creates the engine; this always succeeds.
    pub fn new() -> (r: Result<Self, Error>)
        ensures
            r is Ok,
    {
        Ok(TtsEngine { _marker: () })
    }

    /// The built-in voices.
    pub fn built_in_voices() -> (v: Vec<Voice>)
        ensures
            voices_are(v@, built_in_voice_list()),
    {
        let mut v: Vec<Voice> = Vec::new();
        v.push(voice("af_sarah", "Sarah", "en"));
        v.push(voice("af_sky", "Sky", "en"));
        v.push(voice("af_bella", "Bella", "en"));
        v.push(voice("af_nicole", "Nicole", "en"));
        v.push(voice("am_adam", "Adam", "en"));
        v
    }

    /// The available voices: the built-in ones.
    pub fn list_voices(&self) -> (v: Vec<Voice>)
        ensures
            voices_are(v@, built_in_voice_list()),
    {
        Self::built_in_voices()
    }

    /// The default voice, "af_sky".
    pub fn default_voice(&self) -> (v: VoiceId)
        ensures
            v.0@ == "af_sky"@,
    {
        VoiceId::new("af_sky")
    }
}

impl Default for TtsEngine {
    fn default() -> (e: Self) {
        TtsEngine { _marker: () }
    }
}

/// The voices of the Kokoro model.
pub fn kokoro_voices() -> (v: Vec<Voice>)
    ensures
        voices_are(v@, kokoro_voice_list()),
{
    let mut v: Vec<Voice> = Vec::new();
    v.push(voice("af_sarah", "Sarah", "en-US"));
    v.push(voice("af_sky", "Sky", "en-US"));
    v.push(voice("af_bella", "Bella", "en-US"));
    v.push(voice("af_nicole", "Nicole", "en-US"));
    v.push(voice("af_nicole_low", "Nicole (Low)", "en-US"));
    v.push(voice("am_adam", "Adam", "en-US"));
    v.push(voice("am_michael", "Michael", "en-US"));
    v.push(voice("bf_emma", "Emma", "en-GB"));
    v.push(voice("bf_isabella", "Isabella", "en-GB"));
    v.push(voice("bm_george", "George", "en-GB"));
    v.push(voice("bm_lewis", "Lewis", "en-GB"));
    v.push(voice("ef_dora", "Dora", "es"));
    v.push(voice("ef_giulia", "Giulia", "it"));
    v.push(voice("jf_ai", "Ai", "ja"));
    v.push(voice("zf_xiaoni", "Xiaoni", "zh"));
    v
}

/// The default voice of the Kokoro model, "af_sky".
pub fn kokoro_default_voice() -> (v: VoiceId)
    ensures
        v.0@ == "af_sky"@,
{
    VoiceId::new("af_sky")
}

/// The text with one word respelled where it stands as a whole word:
/// between spaces, before a comma, period, exclamation or question mark or
/// an apostrophe, after an apostrophe, and in double quotes, in that order.
pub open spec fn respell_word(s: Seq<char>, w: Seq<char>, r: Seq<char>) -> Seq<char> {
    let s1 = replace_all(s, " "@ + w + " "@, " "@ + r + " "@);
    let s2 = replace_all(s1, w + ","@, r + ","@);
    let s3 = replace_all(s2, w + "."@, r + "."@);
    let s4 = replace_all(s3, w + "!"@, r + "!"@);
    let s5 = replace_all(s4, w + "?"@, r + "?"@);
    let s6 = replace_all(s5, w + "'"@, r + "'"@);
    let s7 = replace_all(s6, "'"@ + w, "'"@ + r);
    replace_all(s7, "\""@ + w + "\""@, "\""@ + r + "\""@)
}

/// The text with the assistant's name respelled for the speech model
/// ("Thal-yah"): "Thaleia", "Thaleia's", "thaleia" and "thaleia's", in
/// that order.
pub open spec fn fixed_pronunciations(s: Seq<char>) -> Seq<char> {
    let s1 = respell_word(s, "Thaleia"@, "Thal-yah"@);
    let s2 = respell_word(s1, "Thaleia's"@, "Thal-yah's"@);
    let s3 = respell_word(s2, "thaleia"@, "Thal-yah"@);
    respell_word(s3, "thaleia's"@, "Thal-yah's"@)
}

fn wrapped(before: &str, w: &str, after: &str) -> (s: String)
    ensures
        s@ == before@ + w@ + after@,
{
    let mut s = String::from_str(before);
    s.append(w);
    s.append(after);
    s
}

fn respell(text: String, w: &str, r: &str) -> (out: String)
    requires
        w@.len() > 0,
    ensures
        out@ == respell_word(text@, w@, r@),
{
    let p = wrapped(" ", w, " ");
    let q = wrapped(" ", r, " ");
    let s1 = replace(text.as_str(), p.as_str(), q.as_str());
    let p = wrapped("", w, ",");
    let q = wrapped("", r, ",");
    let s2 = replace(s1.as_str(), p.as_str(), q.as_str());
    let p = wrapped("", w, ".");
    let q = wrapped("", r, ".");
    let s3 = replace(s2.as_str(), p.as_str(), q.as_str());
    let p = wrapped("", w, "!");
    let q = wrapped("", r, "!");
    let s4 = replace(s3.as_str(), p.as_str(), q.as_str());
    let p = wrapped("", w, "?");
    let q = wrapped("", r, "?");
    let s5 = replace(s4.as_str(), p.as_str(), q.as_str());
    let p = wrapped("", w, "'");
    let q = wrapped("", r, "'");
    let s6 = replace(s5.as_str(), p.as_str(), q.as_str());
    let p = wrapped("'", w, "");
    let q = wrapped("'", r, "");
    let s7 = replace(s6.as_str(), p.as_str(), q.as_str());
    let p = wrapped("\"", w, "\"");
    let q = wrapped("\"", r, "\"");
    proof {
        reveal_strlit("");
        assert(p@ == "\""@ + w@ + "\""@);
    }
    replace(s7.as_str(), p.as_str(), q.as_str())
}

/// Respells the assistant's name where the speech model mispronounces it.
pub fn fix_pronunciations(text: &str) -> (out: String)
    ensures
        out@ == fixed_pronunciations(text@),
{
    proof {
        reveal_strlit("Thaleia");
        reveal_strlit("Thaleia's");
        reveal_strlit("thaleia");
        reveal_strlit("thaleia's");
    }
    let s = String::from_str(text);
    let s = respell(s, "Thaleia", "Thal-yah");
    let s = respell(s, "Thaleia's", "Thal-yah's");
    let s = respell(s, "thaleia", "Thal-yah");
    respell(s, "thaleia's", "Thal-yah's")
}

/// `needle` occurring in `pat`, which occurs in `s`, occurs in `s`.
proof fn lemma_occurs_within(s: Seq<char>, pat: Seq<char>, needle: Seq<char>, i: int, j: int)
    requires
        occurs_at(s, pat, i),
        occurs_at(pat, needle, j),
    ensures
        occurs_at(s, needle, i + j),
{
    assert(s.subrange(i + j, i + j + needle.len()) =~= pat.subrange(j, j + needle.len()));
}

/// A pattern that holds `needle` does not occur in text without `needle`.
proof fn lemma_pattern_absent(s: Seq<char>, pat: Seq<char>, needle: Seq<char>, j: int)
    requires
        !seq_contains(s, needle),
        occurs_at(pat, needle, j),
    ensures
        !seq_contains(s, pat),
{
    assert forall|i: int| !occurs_at(s, pat, i) by {
        if occurs_at(s, pat, i) {
            lemma_occurs_within(s, pat, needle, i, j);
        }
    }
}

/// Replacing a pattern around `w` leaves text without `needle`, which
/// occurs in `w`, unchanged.
proof fn lemma_wrapped_absent(
    s: Seq<char>,
    before: Seq<char>,
    w: Seq<char>,
    after: Seq<char>,
    r: Seq<char>,
    needle: Seq<char>,
    j: int,
)
    requires
        needle.len() > 0,
        !seq_contains(s, needle),
        occurs_at(w, needle, j),
    ensures
        replace_all(s, before + w + after, r) == s,
{
    let pat = before + w + after;
    assert(pat.subrange(before.len() + j, before.len() + j + needle.len()) =~= w.subrange(
        j,
        j + needle.len(),
    ));
    lemma_pattern_absent(s, pat, needle, before.len() + j);
    lemma_replace_absent(s, pat, r);
}

/// Respelling `w` leaves text without `needle`, which occurs in `w`,
/// unchanged.
proof fn lemma_respell_absent(s: Seq<char>, w: Seq<char>, r: Seq<char>, needle: Seq<char>, j: int)
    requires
        needle.len() > 0,
        !seq_contains(s, needle),
        occurs_at(w, needle, j),
    ensures
        respell_word(s, w, r) == s,
{
    reveal_strlit("");
    assert(" "@ + w + " "@ == " "@ + w + " "@);
    assert(w + ","@ =~= ""@ + w + ","@);
    assert(w + "."@ =~= ""@ + w + "."@);
    assert(w + "!"@ =~= ""@ + w + "!"@);
    assert(w + "?"@ =~= ""@ + w + "?"@);
    assert(w + "'"@ =~= ""@ + w + "'"@);
    assert("'"@ + w =~= "'"@ + w + ""@);
    lemma_wrapped_absent(s, " "@, w, " "@, " "@ + r + " "@, needle, j);
    lemma_wrapped_absent(s, ""@, w, ","@, r + ","@, needle, j);
    lemma_wrapped_absent(s, ""@, w, "."@, r + "."@, needle, j);
    lemma_wrapped_absent(s, ""@, w, "!"@, r + "!"@, needle, j);
    lemma_wrapped_absent(s, ""@, w, "?"@, r + "?"@, needle, j);
    lemma_wrapped_absent(s, ""@, w, "'"@, r + "'"@, needle, j);
    lemma_wrapped_absent(s, "'"@, w, ""@, "'"@ + r, needle, j);
    lemma_wrapped_absent(s, "\""@, w, "\""@, "\""@ + r + "\""@, needle, j);
}

/// Text in which the name does not occur (no "haleia") is spoken as
/// written: the pronunciation fixes leave it unchanged.
pub proof fn lemma_fix_leaves_other_text(s: Seq<char>)
    requires
        !seq_contains(s, "haleia"@),
    ensures
        fixed_pronunciations(s) == s,
{
    reveal_strlit("haleia");
    reveal_strlit("Thaleia");
    reveal_strlit("Thaleia's");
    reveal_strlit("thaleia");
    reveal_strlit("thaleia's");
    assert("Thaleia"@.subrange(1, 7) =~= "haleia"@);
    assert("Thaleia's"@.subrange(1, 7) =~= "haleia"@);
    assert("thaleia"@.subrange(1, 7) =~= "haleia"@);
    assert("thaleia's"@.subrange(1, 7) =~= "haleia"@);
    lemma_respell_absent(s, "Thaleia"@, "Thal-yah"@, "haleia"@, 1);
    lemma_respell_absent(s, "Thaleia's"@, "Thal-yah's"@, "haleia"@, 1);
    lemma_respell_absent(s, "thaleia"@, "Thal-yah"@, "haleia"@, 1);
    lemma_respell_absent(s, "thaleia's"@, "Thal-yah's"@, "haleia"@, 1);
}

} // verus!
