//! Keyword heuristics that compress a conversation exchange into a
//! semantic note: topic, sentiment and outcome. No model is involved.

use vstd::prelude::*;

use crate::text::{
    char_is_whitespace, contains, contains_char, first_word, first_word_of, lowercase, seq_contains,
    to_lowercase, trim_non_alnum, trim_non_alphanumeric,
};

verus! {

/// Keywords and the topics they stand for, in the order they are tried.
pub open spec fn topic_table() -> Seq<(Seq<char>, Seq<char>)> {
    seq![
        ("weather"@, "weather"@),
        ("time"@, "time"@),
        ("help"@, "help request"@),
        ("code"@, "programming"@),
        ("rust"@, "programming"@),
        ("python"@, "programming"@),
        ("music"@, "music"@),
        ("movie"@, "entertainment"@),
        ("book"@, "reading"@),
        ("travel"@, "travel"@),
        ("food"@, "food"@),
        ("work"@, "work"@),
        ("project"@, "project"@),
        ("meeting"@, "meeting"@),
        ("question"@, "question"@),
        ("problem"@, "problem solving"@),
        ("error"@, "debugging"@),
        ("thanks"@, "gratitude"@),
        ("sorry"@, "apology"@),
        ("hello"@, "greeting"@),
        ("bye"@, "farewell"@),
    ]
}

/// The topic of the first table entry from index `i` whose keyword occurs
/// in `lower`.
pub open spec fn first_topic_from(
    lower: Seq<char>,
    table: Seq<(Seq<char>, Seq<char>)>,
    i: nat,
) -> Option<Seq<char>>
    decreases table.len() - i,
{
    if i >= table.len() {
        None
    } else if seq_contains(lower, table[i as int].0) {
        Some(table[i as int].1)
    } else {
        first_topic_from(lower, table, i + 1)
    }
}

/// Number of bytes of the UTF-8 encoding of `s`, as `str::len` reports it.
pub open spec fn byte_len(s: Seq<char>) -> usize {
    vstd::utf8::encode_utf8(s).len() as usize
}

/// The topic used when no keyword matches: the first word, cleaned of
/// punctuation and lowercased, if it is longer than three bytes;
/// otherwise "general".
pub open spec fn fallback_topic(text: Seq<char>) -> Seq<char> {
    match first_word(text) {
        Some(w) => if byte_len(w) > 3 {
            lowercase(trim_non_alnum(w))
        } else {
            "general"@
        },
        None => "general"@,
    }
}

/// The topic of a user utterance.
pub open spec fn topic_of(text: Seq<char>) -> Seq<char> {
    match first_topic_from(lowercase(text), topic_table(), 0) {
        Some(t) => t,
        None => fallback_topic(text),
    }
}

/// 1 when the condition holds, else 0.
pub open spec fn ind(b: bool) -> int {
    if b {
        1
    } else {
        0
    }
}

/// The raw sentiment score before clamping, given the text and its
/// lowercase form.
pub open spec fn raw_sentiment_given(text: Seq<char>, l: Seq<char>) -> int {
    ind(seq_contains(l, "great"@) || seq_contains(l, "good"@) || seq_contains(l, "awesome"@))
        + 2 * ind(seq_contains(l, "excellent"@) || seq_contains(l, "perfect"@) || seq_contains(
        l,
        "wonderful"@,
    )) + ind(text.contains('!')) - ind(text.contains('?')) - ind(
        seq_contains(l, "bad"@) || seq_contains(l, "terrible"@) || seq_contains(l, "awful"@),
    ) - ind(seq_contains(l, "problem"@) || seq_contains(l, "issue"@) || seq_contains(l, "error"@))
}

/// A score clamped to the sentiment range [-1, 1]: its sign.
pub open spec fn clamp_unit(r: int) -> int {
    if r < -1 {
        -1
    } else if r > 1 {
        1
    } else {
        r
    }
}

/// The raw sentiment score before clamping.
pub open spec fn raw_sentiment(text: Seq<char>) -> int {
    raw_sentiment_given(text, lowercase(text))
}

/// Sentiment of an utterance: -1 (negative), 0 (neutral) or 1 (positive).
pub open spec fn sentiment_of(text: Seq<char>) -> int {
    clamp_unit(raw_sentiment(text))
}

/// The outcome recorded for a reply whose lowercase form is `l`.
pub open spec fn outcome_given(l: Seq<char>) -> Option<Seq<char>> {
    if seq_contains(l, "decided"@) || seq_contains(l, "agreed"@) {
        Some("decision made"@)
    } else if seq_contains(l, "learned"@) || seq_contains(l, "found out"@) || seq_contains(
        l,
        "discovered"@,
    ) {
        Some("information learned"@)
    } else if seq_contains(l, "will do"@) || seq_contains(l, "going to"@) || seq_contains(
        l,
        "created"@,
    ) {
        Some("action planned"@)
    } else {
        None
    }
}

/// The outcome recorded for an assistant reply, if any.
pub open spec fn outcome_of(reply: Seq<char>) -> Option<Seq<char>> {
    outcome_given(lowercase(reply))
}

/// A rough token count: a quarter of the byte length.
pub open spec fn tokens_of(text: Seq<char>) -> usize {
    byte_len(text) / 4
}

/// Estimated number of tokens of a text.
pub fn estimate_tokens(text: &str) -> (n: usize)
    ensures
        n == tokens_of(text@),
{
    text.len() / 4
}

/// The topic of the first keyword, in table order, that occurs in the
/// lowercased text `lower`.
pub fn keyword_topic(lower: &str) -> (t: Option<String>)
    ensures
        t matches Some(x) ==> first_topic_from(lower@, topic_table(), 0) == Some(x@),
        t is None ==> first_topic_from(lower@, topic_table(), 0) is None,
{
    let topics: Vec<(&str, &str)> = vec![
        ("weather", "weather"),
        ("time", "time"),
        ("help", "help request"),
        ("code", "programming"),
        ("rust", "programming"),
        ("python", "programming"),
        ("music", "music"),
        ("movie", "entertainment"),
        ("book", "reading"),
        ("travel", "travel"),
        ("food", "food"),
        ("work", "work"),
        ("project", "project"),
        ("meeting", "meeting"),
        ("question", "question"),
        ("problem", "problem solving"),
        ("error", "debugging"),
        ("thanks", "gratitude"),
        ("sorry", "apology"),
        ("hello", "greeting"),
        ("bye", "farewell"),
    ];
    let ghost table = topic_table();
    assert(topics@.map_values(|p: (&str, &str)| (p.0@, p.1@)) =~= table);
    let mut i: usize = 0;
    while i < topics.len()
        invariant
            i <= topics@.len(),
            table == topic_table(),
            topics@.len() == table.len(),
            forall|k: int|
                0 <= k < table.len() ==> (#[trigger] topics@[k]).0@ == table[k].0 && topics@[k].1@
                    == table[k].1,
            first_topic_from(lower@, table, 0) == first_topic_from(lower@, table, i as nat),
        decreases topics@.len() - i,
    {
        let (keyword, topic) = topics[i];
        assert(keyword@ == table[i as int].0 && topic@ == table[i as int].1);
        if contains(lower, keyword) {
            assert(first_topic_from(lower@, table, i as nat) == Some(table[i as int].1));
            return Some(String::from_str(topic));
        }
        i = i + 1;
    }
    assert(first_topic_from(lower@, table, i as nat) is None);
    None
}

/// The topic of a user utterance: the first keyword topic whose keyword
/// occurs in the lowercased text, else the cleaned first word, else
/// "general".
pub fn extract_topic(text: &str) -> (t: String)
    ensures
        t@ == topic_of(text@),
{
    let lower = to_lowercase(text);
    match keyword_topic(lower.as_str()) {
        Some(t) => t,
        None => match first_word_of(text) {
            Some(w) => {
                if w.len() > 3 {
                    to_lowercase(trim_non_alphanumeric(w))
                } else {
                    String::from_str("general")
                }
            },
            None => String::from_str("general"),
        },
    }
}

/// Whether any of three keywords occurs in `s`.
fn contains_any3(s: &str, a: &str, b: &str, c: &str) -> (r: bool)
    ensures
        r == (seq_contains(s@, a@) || seq_contains(s@, b@) || seq_contains(s@, c@)),
{
    contains(s, a) || contains(s, b) || contains(s, c)
}

/// Sentiment of an utterance given its lowercase form `lower`: +1 for a
/// positive word, +2 for an enthusiastic word, +1 for an exclamation mark,
/// -1 for a question mark, -1 for a negative word and -1 for a word about
/// trouble, clamped to the sentiment range [-1, 1].
pub fn sentiment_from(text: &str, lower: &str) -> (s: i8)
    ensures
        s as int == clamp_unit(raw_sentiment_given(text@, lower@)),
        -1 <= s <= 1,
{
    let mut score: i8 = 0;
    if contains_any3(lower, "great", "good", "awesome") {
        score += 1;
    }
    if contains_any3(lower, "excellent", "perfect", "wonderful") {
        score += 2;
    }
    if contains_char(text, '!') {
        score += 1;
    }
    if contains_char(text, '?') {
        score -= 1;
    }
    if contains_any3(lower, "bad", "terrible", "awful") {
        score -= 1;
    }
    if contains_any3(lower, "problem", "issue", "error") {
        score -= 1;
    }
    if score < -1 {
        -1
    } else if score > 1 {
        1
    } else {
        score
    }
}

/// Sentiment of an utterance, from -1 (negative) to 1 (positive); see
/// `sentiment_from`.
pub fn analyze_sentiment(text: &str) -> (s: i8)
    ensures
        s as int == sentiment_of(text@),
        -1 <= s <= 1,
{
    let lower = to_lowercase(text);
    sentiment_from(text, lower.as_str())
}

/// The outcome of a reply given its lowercase form: a decision, learned
/// information, a planned action, or none.
pub fn outcome_from_lowered(lower: &str) -> (o: Option<String>)
    ensures
        o matches Some(s) ==> outcome_given(lower@) == Some(s@),
        o is None ==> outcome_given(lower@) is None,
{
    if contains(lower, "decided") || contains(lower, "agreed") {
        return Some(String::from_str("decision made"));
    }
    if contains_any3(lower, "learned", "found out", "discovered") {
        return Some(String::from_str("information learned"));
    }
    if contains_any3(lower, "will do", "going to", "created") {
        return Some(String::from_str("action planned"));
    }
    None
}

/// The outcome of an assistant reply: a decision, learned information, a
/// planned action, or none.
pub fn extract_outcome(response: &str) -> (o: Option<String>)
    ensures
        o matches Some(s) ==> outcome_of(response@) == Some(s@),
        o is None ==> outcome_of(response@) is None,
{
    let lower = to_lowercase(response);
    outcome_from_lowered(lower.as_str())
}

/// None of `keywords` occurs in `lower`.
pub open spec fn mentions_none(lower: Seq<char>, keywords: Seq<Seq<char>>) -> bool {
    forall|i: int| 0 <= i < keywords.len() ==> !seq_contains(lower, #[trigger] keywords[i])
}

/// A text whose lowercase form mentions `keyword` and none of `earlier`
/// has the topic `topic`.
pub open spec fn topic_rule(
    text: Seq<char>,
    keyword: Seq<char>,
    topic: Seq<char>,
    earlier: Seq<Seq<char>>,
) -> bool {
    seq_contains(lowercase(text), keyword) && mentions_none(lowercase(text), earlier) ==> topic_of(
        text,
    ) == topic
}

/// The first entry from `i` on whose keyword occurs gives the topic.
proof fn lemma_first_topic_at(
    lower: Seq<char>,
    table: Seq<(Seq<char>, Seq<char>)>,
    i: nat,
    j: int,
)
    requires
        i <= j < table.len(),
        seq_contains(lower, table[j].0),
        forall|k: int| i <= k < j ==> !seq_contains(lower, #[trigger] table[k].0),
    ensures
        first_topic_from(lower, table, i) == Some(table[j].1),
    decreases j - i,
{
    if i < j {
        lemma_first_topic_at(lower, table, i + 1, j);
    }
}

/// The topics that keywords stand for: a text is about the topic of the
/// first keyword, in this order, that its lowercase form mentions —
/// weather, time, help (a help request), code, rust and python
/// (programming), music, movie (entertainment), book (reading), travel,
/// food, work, project, meeting, question, problem (problem solving),
/// error (debugging), thanks (gratitude), sorry (apology), hello
/// (greeting), bye (farewell).
pub proof fn lemma_keywords_give_their_topics(text: Seq<char>)
    ensures
        topic_rule(text, "weather"@, "weather"@, Seq::<Seq<char>>::empty()),
        topic_rule(text, "time"@, "time"@, seq!["weather"@]),
        topic_rule(text, "help"@, "help request"@, seq!["weather"@, "time"@]),
        topic_rule(text, "code"@, "programming"@, seq!["weather"@, "time"@, "help"@]),
        topic_rule(text, "rust"@, "programming"@, seq!["weather"@, "time"@, "help"@, "code"@]),
        topic_rule(text, "python"@, "programming"@, seq!["weather"@, "time"@, "help"@, "code"@, "rust"@]),
        topic_rule(text, "music"@, "music"@, seq!["weather"@, "time"@, "help"@, "code"@, "rust"@, "python"@]),
        topic_rule(text, "movie"@, "entertainment"@, seq!["weather"@, "time"@, "help"@, "code"@, "rust"@, "python"@, "music"@]),
        topic_rule(text, "book"@, "reading"@, seq!["weather"@, "time"@, "help"@, "code"@, "rust"@, "python"@, "music"@, "movie"@]),
        topic_rule(text, "travel"@, "travel"@, seq!["weather"@, "time"@, "help"@, "code"@, "rust"@, "python"@, "music"@, "movie"@, "book"@]),
        topic_rule(text, "food"@, "food"@, seq!["weather"@, "time"@, "help"@, "code"@, "rust"@, "python"@, "music"@, "movie"@, "book"@, "travel"@]),
        topic_rule(text, "work"@, "work"@, seq!["weather"@, "time"@, "help"@, "code"@, "rust"@, "python"@, "music"@, "movie"@, "book"@, "travel"@, "food"@]),
        topic_rule(text, "project"@, "project"@, seq!["weather"@, "time"@, "help"@, "code"@, "rust"@, "python"@, "music"@, "movie"@, "book"@, "travel"@, "food"@, "work"@]),
        topic_rule(text, "meeting"@, "meeting"@, seq!["weather"@, "time"@, "help"@, "code"@, "rust"@, "python"@, "music"@, "movie"@, "book"@, "travel"@, "food"@, "work"@, "project"@]),
        topic_rule(text, "question"@, "question"@, seq!["weather"@, "time"@, "help"@, "code"@, "rust"@, "python"@, "music"@, "movie"@, "book"@, "travel"@, "food"@, "work"@, "project"@, "meeting"@]),
        topic_rule(text, "problem"@, "problem solving"@, seq!["weather"@, "time"@, "help"@, "code"@, "rust"@, "python"@, "music"@, "movie"@, "book"@, "travel"@, "food"@, "work"@, "project"@, "meeting"@, "question"@]),
        topic_rule(text, "error"@, "debugging"@, seq!["weather"@, "time"@, "help"@, "code"@, "rust"@, "python"@, "music"@, "movie"@, "book"@, "travel"@, "food"@, "work"@, "project"@, "meeting"@, "question"@, "problem"@]),
        topic_rule(text, "thanks"@, "gratitude"@, seq!["weather"@, "time"@, "help"@, "code"@, "rust"@, "python"@, "music"@, "movie"@, "book"@, "travel"@, "food"@, "work"@, "project"@, "meeting"@, "question"@, "problem"@, "error"@]),
        topic_rule(text, "sorry"@, "apology"@, seq!["weather"@, "time"@, "help"@, "code"@, "rust"@, "python"@, "music"@, "movie"@, "book"@, "travel"@, "food"@, "work"@, "project"@, "meeting"@, "question"@, "problem"@, "error"@, "thanks"@]),
        topic_rule(text, "hello"@, "greeting"@, seq!["weather"@, "time"@, "help"@, "code"@, "rust"@, "python"@, "music"@, "movie"@, "book"@, "travel"@, "food"@, "work"@, "project"@, "meeting"@, "question"@, "problem"@, "error"@, "thanks"@, "sorry"@]),
        topic_rule(text, "bye"@, "farewell"@, seq!["weather"@, "time"@, "help"@, "code"@, "rust"@, "python"@, "music"@, "movie"@, "book"@, "travel"@, "food"@, "work"@, "project"@, "meeting"@, "question"@, "problem"@, "error"@, "thanks"@, "sorry"@, "hello"@]),
{
    let l = lowercase(text);
    if seq_contains(l, "weather"@) && mentions_none(l, Seq::<Seq<char>>::empty()) {
        lemma_first_topic_at(l, topic_table(), 0, 0);
    }
    if seq_contains(l, "time"@) && mentions_none(l, seq!["weather"@]) {
        let earlier = seq!["weather"@];
        assert forall|k: int| 0 <= k < 1 implies !seq_contains(l, #[trigger] topic_table()[k].0) by {
            assert(topic_table()[k].0 == earlier[k]);
        }
        lemma_first_topic_at(l, topic_table(), 0, 1);
    }
    if seq_contains(l, "help"@) && mentions_none(l, seq!["weather"@, "time"@]) {
        let earlier = seq!["weather"@, "time"@];
        assert forall|k: int| 0 <= k < 2 implies !seq_contains(l, #[trigger] topic_table()[k].0) by {
            assert(topic_table()[k].0 == earlier[k]);
        }
        lemma_first_topic_at(l, topic_table(), 0, 2);
    }
    if seq_contains(l, "code"@) && mentions_none(l, seq!["weather"@, "time"@, "help"@]) {
        let earlier = seq!["weather"@, "time"@, "help"@];
        assert forall|k: int| 0 <= k < 3 implies !seq_contains(l, #[trigger] topic_table()[k].0) by {
            assert(topic_table()[k].0 == earlier[k]);
        }
        lemma_first_topic_at(l, topic_table(), 0, 3);
    }
    if seq_contains(l, "rust"@) && mentions_none(l, seq!["weather"@, "time"@, "help"@, "code"@]) {
        let earlier = seq!["weather"@, "time"@, "help"@, "code"@];
        assert forall|k: int| 0 <= k < 4 implies !seq_contains(l, #[trigger] topic_table()[k].0) by {
            assert(topic_table()[k].0 == earlier[k]);
        }
        lemma_first_topic_at(l, topic_table(), 0, 4);
    }
    if seq_contains(l, "python"@) && mentions_none(l, seq!["weather"@, "time"@, "help"@, "code"@, "rust"@]) {
        let earlier = seq!["weather"@, "time"@, "help"@, "code"@, "rust"@];
        assert forall|k: int| 0 <= k < 5 implies !seq_contains(l, #[trigger] topic_table()[k].0) by {
            assert(topic_table()[k].0 == earlier[k]);
        }
        lemma_first_topic_at(l, topic_table(), 0, 5);
    }
    if seq_contains(l, "music"@) && mentions_none(l, seq!["weather"@, "time"@, "help"@, "code"@, "rust"@, "python"@]) {
        let earlier = seq!["weather"@, "time"@, "help"@, "code"@, "rust"@, "python"@];
        assert forall|k: int| 0 <= k < 6 implies !seq_contains(l, #[trigger] topic_table()[k].0) by {
            assert(topic_table()[k].0 == earlier[k]);
        }
        lemma_first_topic_at(l, topic_table(), 0, 6);
    }
    if seq_contains(l, "movie"@) && mentions_none(l, seq!["weather"@, "time"@, "help"@, "code"@, "rust"@, "python"@, "music"@]) {
        let earlier = seq!["weather"@, "time"@, "help"@, "code"@, "rust"@, "python"@, "music"@];
        assert forall|k: int| 0 <= k < 7 implies !seq_contains(l, #[trigger] topic_table()[k].0) by {
            assert(topic_table()[k].0 == earlier[k]);
        }
        lemma_first_topic_at(l, topic_table(), 0, 7);
    }
    if seq_contains(l, "book"@) && mentions_none(l, seq!["weather"@, "time"@, "help"@, "code"@, "rust"@, "python"@, "music"@, "movie"@]) {
        let earlier = seq!["weather"@, "time"@, "help"@, "code"@, "rust"@, "python"@, "music"@, "movie"@];
        assert forall|k: int| 0 <= k < 8 implies !seq_contains(l, #[trigger] topic_table()[k].0) by {
            assert(topic_table()[k].0 == earlier[k]);
        }
        lemma_first_topic_at(l, topic_table(), 0, 8);
    }
    if seq_contains(l, "travel"@) && mentions_none(l, seq!["weather"@, "time"@, "help"@, "code"@, "rust"@, "python"@, "music"@, "movie"@, "book"@]) {
        let earlier = seq!["weather"@, "time"@, "help"@, "code"@, "rust"@, "python"@, "music"@, "movie"@, "book"@];
        assert forall|k: int| 0 <= k < 9 implies !seq_contains(l, #[trigger] topic_table()[k].0) by {
            assert(topic_table()[k].0 == earlier[k]);
        }
        lemma_first_topic_at(l, topic_table(), 0, 9);
    }
    if seq_contains(l, "food"@) && mentions_none(l, seq!["weather"@, "time"@, "help"@, "code"@, "rust"@, "python"@, "music"@, "movie"@, "book"@, "travel"@]) {
        let earlier = seq!["weather"@, "time"@, "help"@, "code"@, "rust"@, "python"@, "music"@, "movie"@, "book"@, "travel"@];
        assert forall|k: int| 0 <= k < 10 implies !seq_contains(l, #[trigger] topic_table()[k].0) by {
            assert(topic_table()[k].0 == earlier[k]);
        }
        lemma_first_topic_at(l, topic_table(), 0, 10);
    }
    if seq_contains(l, "work"@) && mentions_none(l, seq!["weather"@, "time"@, "help"@, "code"@, "rust"@, "python"@, "music"@, "movie"@, "book"@, "travel"@, "food"@]) {
        let earlier = seq!["weather"@, "time"@, "help"@, "code"@, "rust"@, "python"@, "music"@, "movie"@, "book"@, "travel"@, "food"@];
        assert forall|k: int| 0 <= k < 11 implies !seq_contains(l, #[trigger] topic_table()[k].0) by {
            assert(topic_table()[k].0 == earlier[k]);
        }
        lemma_first_topic_at(l, topic_table(), 0, 11);
    }
    if seq_contains(l, "project"@) && mentions_none(l, seq!["weather"@, "time"@, "help"@, "code"@, "rust"@, "python"@, "music"@, "movie"@, "book"@, "travel"@, "food"@, "work"@]) {
        let earlier = seq!["weather"@, "time"@, "help"@, "code"@, "rust"@, "python"@, "music"@, "movie"@, "book"@, "travel"@, "food"@, "work"@];
        assert forall|k: int| 0 <= k < 12 implies !seq_contains(l, #[trigger] topic_table()[k].0) by {
            assert(topic_table()[k].0 == earlier[k]);
        }
        lemma_first_topic_at(l, topic_table(), 0, 12);
    }
    if seq_contains(l, "meeting"@) && mentions_none(l, seq!["weather"@, "time"@, "help"@, "code"@, "rust"@, "python"@, "music"@, "movie"@, "book"@, "travel"@, "food"@, "work"@, "project"@]) {
        let earlier = seq!["weather"@, "time"@, "help"@, "code"@, "rust"@, "python"@, "music"@, "movie"@, "book"@, "travel"@, "food"@, "work"@, "project"@];
        assert forall|k: int| 0 <= k < 13 implies !seq_contains(l, #[trigger] topic_table()[k].0) by {
            assert(topic_table()[k].0 == earlier[k]);
        }
        lemma_first_topic_at(l, topic_table(), 0, 13);
    }
    if seq_contains(l, "question"@) && mentions_none(l, seq!["weather"@, "time"@, "help"@, "code"@, "rust"@, "python"@, "music"@, "movie"@, "book"@, "travel"@, "food"@, "work"@, "project"@, "meeting"@]) {
        let earlier = seq!["weather"@, "time"@, "help"@, "code"@, "rust"@, "python"@, "music"@, "movie"@, "book"@, "travel"@, "food"@, "work"@, "project"@, "meeting"@];
        assert forall|k: int| 0 <= k < 14 implies !seq_contains(l, #[trigger] topic_table()[k].0) by {
            assert(topic_table()[k].0 == earlier[k]);
        }
        lemma_first_topic_at(l, topic_table(), 0, 14);
    }
    if seq_contains(l, "problem"@) && mentions_none(l, seq!["weather"@, "time"@, "help"@, "code"@, "rust"@, "python"@, "music"@, "movie"@, "book"@, "travel"@, "food"@, "work"@, "project"@, "meeting"@, "question"@]) {
        let earlier = seq!["weather"@, "time"@, "help"@, "code"@, "rust"@, "python"@, "music"@, "movie"@, "book"@, "travel"@, "food"@, "work"@, "project"@, "meeting"@, "question"@];
        assert forall|k: int| 0 <= k < 15 implies !seq_contains(l, #[trigger] topic_table()[k].0) by {
            assert(topic_table()[k].0 == earlier[k]);
        }
        lemma_first_topic_at(l, topic_table(), 0, 15);
    }
    if seq_contains(l, "error"@) && mentions_none(l, seq!["weather"@, "time"@, "help"@, "code"@, "rust"@, "python"@, "music"@, "movie"@, "book"@, "travel"@, "food"@, "work"@, "project"@, "meeting"@, "question"@, "problem"@]) {
        let earlier = seq!["weather"@, "time"@, "help"@, "code"@, "rust"@, "python"@, "music"@, "movie"@, "book"@, "travel"@, "food"@, "work"@, "project"@, "meeting"@, "question"@, "problem"@];
        assert forall|k: int| 0 <= k < 16 implies !seq_contains(l, #[trigger] topic_table()[k].0) by {
            assert(topic_table()[k].0 == earlier[k]);
        }
        lemma_first_topic_at(l, topic_table(), 0, 16);
    }
    if seq_contains(l, "thanks"@) && mentions_none(l, seq!["weather"@, "time"@, "help"@, "code"@, "rust"@, "python"@, "music"@, "movie"@, "book"@, "travel"@, "food"@, "work"@, "project"@, "meeting"@, "question"@, "problem"@, "error"@]) {
        let earlier = seq!["weather"@, "time"@, "help"@, "code"@, "rust"@, "python"@, "music"@, "movie"@, "book"@, "travel"@, "food"@, "work"@, "project"@, "meeting"@, "question"@, "problem"@, "error"@];
        assert forall|k: int| 0 <= k < 17 implies !seq_contains(l, #[trigger] topic_table()[k].0) by {
            assert(topic_table()[k].0 == earlier[k]);
        }
        lemma_first_topic_at(l, topic_table(), 0, 17);
    }
    if seq_contains(l, "sorry"@) && mentions_none(l, seq!["weather"@, "time"@, "help"@, "code"@, "rust"@, "python"@, "music"@, "movie"@, "book"@, "travel"@, "food"@, "work"@, "project"@, "meeting"@, "question"@, "problem"@, "error"@, "thanks"@]) {
        let earlier = seq!["weather"@, "time"@, "help"@, "code"@, "rust"@, "python"@, "music"@, "movie"@, "book"@, "travel"@, "food"@, "work"@, "project"@, "meeting"@, "question"@, "problem"@, "error"@, "thanks"@];
        assert forall|k: int| 0 <= k < 18 implies !seq_contains(l, #[trigger] topic_table()[k].0) by {
            assert(topic_table()[k].0 == earlier[k]);
        }
        lemma_first_topic_at(l, topic_table(), 0, 18);
    }
    if seq_contains(l, "hello"@) && mentions_none(l, seq!["weather"@, "time"@, "help"@, "code"@, "rust"@, "python"@, "music"@, "movie"@, "book"@, "travel"@, "food"@, "work"@, "project"@, "meeting"@, "question"@, "problem"@, "error"@, "thanks"@, "sorry"@]) {
        let earlier = seq!["weather"@, "time"@, "help"@, "code"@, "rust"@, "python"@, "music"@, "movie"@, "book"@, "travel"@, "food"@, "work"@, "project"@, "meeting"@, "question"@, "problem"@, "error"@, "thanks"@, "sorry"@];
        assert forall|k: int| 0 <= k < 19 implies !seq_contains(l, #[trigger] topic_table()[k].0) by {
            assert(topic_table()[k].0 == earlier[k]);
        }
        lemma_first_topic_at(l, topic_table(), 0, 19);
    }
    if seq_contains(l, "bye"@) && mentions_none(l, seq!["weather"@, "time"@, "help"@, "code"@, "rust"@, "python"@, "music"@, "movie"@, "book"@, "travel"@, "food"@, "work"@, "project"@, "meeting"@, "question"@, "problem"@, "error"@, "thanks"@, "sorry"@, "hello"@]) {
        let earlier = seq!["weather"@, "time"@, "help"@, "code"@, "rust"@, "python"@, "music"@, "movie"@, "book"@, "travel"@, "food"@, "work"@, "project"@, "meeting"@, "question"@, "problem"@, "error"@, "thanks"@, "sorry"@, "hello"@];
        assert forall|k: int| 0 <= k < 20 implies !seq_contains(l, #[trigger] topic_table()[k].0) by {
            assert(topic_table()[k].0 == earlier[k]);
        }
        lemma_first_topic_at(l, topic_table(), 0, 20);
    }
}

} // verus!
