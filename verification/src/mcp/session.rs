//! Session memory kept deliberately small: the last few exchanges in full,
//! compressed notes about earlier ones, and memories the user pinned.
//! The token budget of a session is 100 000.

use std::collections::VecDeque;
use vstd::prelude::*;

use crate::text::str_eq;

use super::heuristics::{
    analyze_sentiment, estimate_tokens, extract_outcome, extract_topic, outcome_of, sentiment_of,
    tokens_of, topic_of,
};

verus! {

/// Number of full exchanges kept.
pub const HOT_MAX: usize = 3;

/// Number of notes kept in standard mode.
pub const WARM_MAX_STANDARD: usize = 20;

/// Number of notes kept in long-term mode.
pub const WARM_MAX_LONGTERM: usize = 100;

/// Token budget of a session.
pub const TOKEN_BUDGET_MAX: usize = 100_000;

/// How much of the conversation is remembered.
#[derive(Debug, Clone, Copy, PartialEq, Eq, Structural)]
pub enum MemoryMode {
    /// Nothing is kept.
    Ephemeral,
    /// Recent exchanges and a bounded set of notes.
    Standard,
    /// Recent exchanges and a larger set of notes.
    Longterm,
}

impl Default for MemoryMode {
    fn default() -> (m: Self)
        ensures
            m == MemoryMode::Ephemeral,
    {
        MemoryMode::Ephemeral
    }
}

/// The memory mode a name stands for.
pub open spec fn memory_mode_named(name: Seq<char>) -> Option<MemoryMode> {
    if name == "ephemeral"@ {
        Some(MemoryMode::Ephemeral)
    } else if name == "standard"@ {
        Some(MemoryMode::Standard)
    } else if name == "longterm"@ {
        Some(MemoryMode::Longterm)
    } else {
        None
    }
}

impl MemoryMode {
    /// The mode named "ephemeral", "standard" or "longterm".
    pub fn from_name(name: &str) -> (m: Option<Self>)
        ensures
            m == memory_mode_named(name@),
    {
        if str_eq(name, "ephemeral") {
            Some(MemoryMode::Ephemeral)
        } else if str_eq(name, "standard") {
            Some(MemoryMode::Standard)
        } else if str_eq(name, "longterm") {
            Some(MemoryMode::Longterm)
        } else {
            None
        }
    }
}

/// A compressed record of one exchange.
#[derive(Debug, Clone)]
pub struct SemanticNote {
    /// Time of the exchange, counted in interactions.
    pub timestamp: u32,
    /// Topic of the user's utterance.
    pub topic: String,
    /// Sentiment: -1 (negative) to 1 (positive).
    pub sentiment: i8,
    /// Outcome of the reply, if any.
    pub outcome: Option<String>,
}

/// One exchange in full.
#[derive(Debug, Clone)]
pub struct Exchange {
    pub user: String,
    pub assistant: String,
    pub timestamp: u32,
}

/// Something the user asked to remember.
#[derive(Debug, Clone)]
pub struct PinnedMemory {
    pub content: String,
    pub created_at: u32,
    pub tags: Vec<String>,
}

/// Abstract value of a note.
pub struct NoteView {
    pub timestamp: u32,
    pub topic: Seq<char>,
    pub sentiment: i8,
    pub outcome: Option<Seq<char>>,
}

/// Abstract value of an exchange.
pub struct ExchangeView {
    pub user: Seq<char>,
    pub assistant: Seq<char>,
    pub timestamp: u32,
}

/// Abstract value of a pinned memory.
pub struct PinnedView {
    pub content: Seq<char>,
    pub created_at: u32,
    pub tags: Seq<Seq<char>>,
}

/// View of an optional string.
pub open spec fn opt_view(o: Option<String>) -> Option<Seq<char>> {
    match o {
        Some(s) => Some(s@),
        None => None,
    }
}

impl View for SemanticNote {
    type V = NoteView;

    open spec fn view(&self) -> NoteView {
        NoteView {
            timestamp: self.timestamp,
            topic: self.topic@,
            sentiment: self.sentiment,
            outcome: opt_view(self.outcome),
        }
    }
}

impl View for Exchange {
    type V = ExchangeView;

    open spec fn view(&self) -> ExchangeView {
        ExchangeView { user: self.user@, assistant: self.assistant@, timestamp: self.timestamp }
    }
}

impl View for PinnedMemory {
    type V = PinnedView;

    open spec fn view(&self) -> PinnedView {
        PinnedView {
            content: self.content@,
            created_at: self.created_at,
            tags: self.tags@.map_values(|t: String| t@),
        }
    }
}

/// Abstract value of the private part of a session.
pub struct SessionView {
    /// Memory mode.
    pub mode: MemoryMode,
    /// Session start time.
    pub start_time: u32,
    /// Tokens used so far.
    pub token_budget_used: usize,
    /// Interactions so far.
    pub time_counter: u32,
    /// Recent exchanges, oldest first.
    pub hot: Seq<ExchangeView>,
    /// Notes, oldest first.
    pub warm: Seq<NoteView>,
    /// Pinned memories, in the order they were pinned.
    pub pinned: Seq<PinnedView>,
}

/// Session state.
#[derive(Debug, Clone)]
pub struct SessionState {
    /// Memory mode.
    pub mode: MemoryMode,
    /// Session start time (relative seconds).
    pub start_time: u32,
    time_counter: u32,
    hot_storage: VecDeque<Exchange>,
    warm_storage: VecDeque<SemanticNote>,
    pinned_memories: Vec<PinnedMemory>,
    /// Tokens used so far (approximate).
    pub token_budget_used: usize,
}

/// Number of notes kept in a mode.
pub open spec fn warm_max(mode: MemoryMode) -> nat {
    match mode {
        MemoryMode::Ephemeral => 0,
        MemoryMode::Standard => 20,
        MemoryMode::Longterm => 100,
    }
}

/// Appends `x` and, when that exceeds `max`, drops the oldest element.
pub open spec fn bounded_push<T>(s: Seq<T>, x: T, max: nat) -> Seq<T> {
    let t = s.push(x);
    if t.len() > max {
        t.drop_first()
    } else {
        t
    }
}

/// Values that strictly increase, none above `bound`.
pub open spec fn rising_to(ts: Seq<u32>, bound: u32) -> bool {
    &&& forall|i: int, j: int| 0 <= i < j < ts.len() ==> ts[i] < ts[j]
    &&& forall|i: int| 0 <= i < ts.len() ==> ts[i] <= bound
}

/// Timestamps of exchanges, in order.
pub open spec fn hot_times(hot: Seq<ExchangeView>) -> Seq<u32> {
    hot.map_values(|e: ExchangeView| e.timestamp)
}

/// Timestamps of notes, in order.
pub open spec fn warm_times(warm: Seq<NoteView>) -> Seq<u32> {
    warm.map_values(|n: NoteView| n.timestamp)
}

/// Appending a value later than every value keeps values rising, also
/// when the oldest is dropped.
proof fn lemma_rising_push(ts: Seq<u32>, bound: u32, t: u32, max: nat)
    requires
        rising_to(ts, bound),
        bound < t,
    ensures
        rising_to(bounded_push(ts, t, max), t),
{
    let p = ts.push(t);
    assert(rising_to(p, t)) by {
        assert forall|i: int, j: int| 0 <= i < j < p.len() implies p[i] < p[j] by {
            if j == ts.len() {
                assert(p[i] == ts[i]);
            } else {
                assert(p[i] == ts[i] && p[j] == ts[j]);
            }
        }
        assert forall|i: int| 0 <= i < p.len() implies p[i] <= t by {
            if i < ts.len() {
                assert(p[i] == ts[i]);
            }
        }
    }
    if p.len() > max {
        let d = p.drop_first();
        assert forall|i: int, j: int| 0 <= i < j < d.len() implies d[i] < d[j] by {
            assert(d[i] == p[i + 1] && d[j] == p[j + 1]);
        }
        assert forall|i: int| 0 <= i < d.len() implies d[i] <= t by {
            assert(d[i] == p[i + 1]);
        }
    }
}

/// Timestamps of a bounded append of an exchange.
proof fn lemma_hot_times_push(hot: Seq<ExchangeView>, e: ExchangeView, max: nat)
    ensures
        hot_times(bounded_push(hot, e, max)) == bounded_push(hot_times(hot), e.timestamp, max),
{
    assert(hot_times(hot.push(e)) =~= hot_times(hot).push(e.timestamp));
    if hot.push(e).len() > max {
        assert(hot_times(hot.push(e).drop_first()) =~= hot_times(hot).push(e.timestamp).drop_first());
    }
}

/// Timestamps of a bounded append of a note.
proof fn lemma_warm_times_push(warm: Seq<NoteView>, n: NoteView, max: nat)
    ensures
        warm_times(bounded_push(warm, n, max)) == bounded_push(warm_times(warm), n.timestamp, max),
{
    assert(warm_times(warm.push(n)) =~= warm_times(warm).push(n.timestamp));
    if warm.push(n).len() > max {
        assert(warm_times(warm.push(n).drop_first()) =~= warm_times(warm).push(n.timestamp).drop_first());
    }
}

/// The note made of an exchange at time `t`.
pub open spec fn note_for(user: Seq<char>, assistant: Seq<char>, t: u32) -> NoteView {
    NoteView {
        timestamp: t,
        topic: topic_of(user),
        sentiment: sentiment_of(user) as i8,
        outcome: outcome_of(assistant),
    }
}

/// Sum of the sentiments of notes.
pub open spec fn sentiment_sum(notes: Seq<NoteView>) -> int
    decreases notes.len(),
{
    if notes.len() == 0 {
        0
    } else {
        sentiment_sum(notes.drop_last()) + notes.last().sentiment
    }
}

/// Integer division rounding toward zero, for a positive divisor.
pub open spec fn div_toward_zero(a: int, b: int) -> int {
    if a >= 0 {
        a / b
    } else {
        -((-a) / b)
    }
}

/// Name of an average mood.
pub open spec fn mood_name(avg: int) -> Seq<char> {
    if -3 <= avg <= -1 {
        "somewhat negative"@
    } else if 1 <= avg <= 3 {
        "positive"@
    } else {
        "neutral"@
    }
}

/// Lines of the recent exchanges.
pub open spec fn exchange_lines(hot: Seq<ExchangeView>) -> Seq<char>
    decreases hot.len(),
{
    if hot.len() == 0 {
        Seq::empty()
    } else {
        exchange_lines(hot.drop_last()) + "  User: "@ + hot.last().user + "\n"@ + "  Thaleia: "@
            + hot.last().assistant + "\n"@
    }
}

/// Topics of the notes, separated by ", ".
pub open spec fn joined_topics(warm: Seq<NoteView>) -> Seq<char>
    decreases warm.len(),
{
    if warm.len() == 0 {
        Seq::empty()
    } else if warm.len() == 1 {
        warm[0].topic
    } else {
        joined_topics(warm.drop_last()) + ", "@ + warm.last().topic
    }
}

/// Lines of the pinned memories.
pub open spec fn pinned_lines(pinned: Seq<PinnedView>) -> Seq<char>
    decreases pinned.len(),
{
    if pinned.len() == 0 {
        Seq::empty()
    } else {
        pinned_lines(pinned.drop_last()) + "  - "@ + pinned.last().content + "\n"@
    }
}

/// The context text of a session.
pub open spec fn context_of(mode: MemoryMode, v: SessionView) -> Seq<char> {
    if mode == MemoryMode::Ephemeral {
        Seq::empty()
    } else {
        (if v.hot.len() > 0 {
            "Recent conversation:\n"@ + exchange_lines(v.hot)
        } else {
            Seq::empty()
        }) + (if v.warm.len() > 0 {
            "\nTopics discussed: "@ + joined_topics(v.warm) + "\nOverall mood: "@ + mood_name(
                div_toward_zero(sentiment_sum(v.warm), v.warm.len() as int),
            ) + "\n"@
        } else {
            Seq::empty()
        }) + (if v.pinned.len() > 0 {
            "\nPinned memories:\n"@ + pinned_lines(v.pinned)
        } else {
            Seq::empty()
        })
    }
}

impl View for SessionState {
    type V = SessionView;

    closed spec fn view(&self) -> SessionView {
        SessionView {
            mode: self.mode,
            start_time: self.start_time,
            token_budget_used: self.token_budget_used,
            time_counter: self.time_counter,
            hot: self.hot_storage@.map_values(|e: Exchange| e@),
            warm: self.warm_storage@.map_values(|n: SemanticNote| n@),
            pinned: self.pinned_memories@.map_values(|p: PinnedMemory| p@),
        }
    }
}

/// A copy of an optional string.
fn clone_opt_string(o: &Option<String>) -> (r: Option<String>)
    ensures
        opt_view(r) == opt_view(*o),
{
    match o {
        Some(s) => Some(s.clone()),
        None => None,
    }
}

impl SessionState {
    /// The bounds that every session keeps: at most three recent exchanges,
    /// at most a hundred notes, note sentiments within [-1, 1], and
    /// timestamps that strictly increase along the recent exchanges and
    /// along the notes, none later than the interaction counter.
    pub open spec fn wf(&self) -> bool {
        &&& self@.hot.len() <= 3
        &&& self@.warm.len() <= 100
        &&& forall|i: int| 0 <= i < self@.warm.len() ==> -1 <= #[trigger] self@.warm[i].sentiment <= 1
        &&& rising_to(hot_times(self@.hot), self@.time_counter)
        &&& rising_to(warm_times(self@.warm), self@.time_counter)
    }

    /// The memory mode: the public field `mode`, as the view holds it.
    pub fn memory_mode(&self) -> (m: MemoryMode)
        ensures
            m == self@.mode,
    {
        self.mode
    }

    /// The session start time: the public field `start_time`, as the view
    /// holds it.
    pub fn session_start(&self) -> (t: u32)
        ensures
            t == self@.start_time,
    {
        self.start_time
    }

    /// A new session in standard mode.
    pub fn new() -> (s: Self)
        ensures
            s.wf(),
            s@.mode == MemoryMode::Standard,
            s@.start_time == 0,
            s@.token_budget_used == 0,
            s@.time_counter == 0,
            s@.hot.len() == 0,
            s@.warm.len() == 0,
            s@.pinned.len() == 0,
    {
        Self::with_mode(MemoryMode::Standard)
    }

    /// A new session in the given mode.
    pub fn with_mode(mode: MemoryMode) -> (s: Self)
        ensures
            s.wf(),
            s@.mode == mode,
            s@.start_time == 0,
            s@.token_budget_used == 0,
            s@.time_counter == 0,
            s@.hot.len() == 0,
            s@.warm.len() == 0,
            s@.pinned.len() == 0,
    {
        let s = Self {
            mode,
            start_time: 0,
            time_counter: 0,
            hot_storage: VecDeque::with_capacity(HOT_MAX),
            warm_storage: VecDeque::new(),
            pinned_memories: Vec::new(),
            token_budget_used: 0,
        };
        assert(s@.hot =~= Seq::empty());
        assert(s@.warm =~= Seq::empty());
        s
    }

    /// Advances the interaction counter and returns its new value.
    fn current_time(&mut self) -> (t: u32)
        requires
            old(self)@.time_counter < u32::MAX,
        ensures
            t == old(self)@.time_counter + 1,
            final(self)@.time_counter == t,
            final(self)@.hot == old(self)@.hot,
            final(self)@.warm == old(self)@.warm,
            final(self)@.pinned == old(self)@.pinned,
            final(self)@.mode == old(self)@.mode,
            final(self)@.start_time == old(self)@.start_time,
            final(self)@.token_budget_used == old(self)@.token_budget_used,
    {
        self.time_counter = self.time_counter + 1;
        self.time_counter
    }

    /// Records an exchange.
    ///
    /// Every exchange advances the interaction counter and adds the
    /// estimated tokens of both texts to the budget. In ephemeral mode
    /// nothing else is kept and no note is returned. Otherwise the exchange
    /// joins the recent exchanges (the oldest is dropped beyond three), and
    /// a note with its topic, sentiment and outcome joins the notes (the
    /// oldest is dropped beyond the mode's limit); the note is returned.
    pub fn add_exchange(&mut self, user: &str, assistant: &str) -> (r: Option<SemanticNote>)
        requires
            old(self).wf(),
            old(self)@.time_counter < u32::MAX,
            old(self)@.token_budget_used + tokens_of(user@) + tokens_of(assistant@) <= usize::MAX,
        ensures
            final(self).wf(),
            final(self)@.mode == old(self)@.mode,
            final(self)@.start_time == old(self)@.start_time,
            final(self)@.time_counter == old(self)@.time_counter + 1,
            final(self)@.token_budget_used == old(self)@.token_budget_used + tokens_of(user@)
                + tokens_of(assistant@),
            final(self)@.pinned == old(self)@.pinned,
            final(self)@ == session_step(
                old(self)@,
                SessionOp::Exchange { user: user@, assistant: assistant@ },
            ),
            old(self)@.mode == MemoryMode::Ephemeral ==> {
                &&& r is None
                &&& final(self)@.hot == old(self)@.hot
                &&& final(self)@.warm == old(self)@.warm
            },
            old(self)@.mode != MemoryMode::Ephemeral ==> {
                let t = (old(self)@.time_counter + 1) as u32;
                let note = note_for(user@, assistant@, t);
                &&& r matches Some(n) && n@ == note
                &&& final(self)@.hot == bounded_push(
                    old(self)@.hot,
                    ExchangeView { user: user@, assistant: assistant@, timestamp: t },
                    3,
                )
                &&& final(self)@.warm == bounded_push(old(self)@.warm, note, warm_max(
                    old(self)@.mode,
                ))
            },
    {
        let time = self.current_time();
        let cost = estimate_tokens(user) + estimate_tokens(assistant);
        if self.mode == MemoryMode::Ephemeral {
            self.token_budget_used = self.token_budget_used + cost;
            return None;
        }
        let ghost old_hot = self@.hot;
        let ghost old_warm = self@.warm;
        let exchange = Exchange {
            user: String::from_str(user),
            assistant: String::from_str(assistant),
            timestamp: time,
        };
        self.hot_storage.push_back(exchange);
        if self.hot_storage.len() > HOT_MAX {
            self.hot_storage.pop_front();
        }
        let topic = extract_topic(user);
        let sentiment = analyze_sentiment(user);
        let outcome = extract_outcome(assistant);
        let kept = SemanticNote {
            timestamp: time,
            topic: topic.clone(),
            sentiment,
            outcome: clone_opt_string(&outcome),
        };
        let semantic = SemanticNote { timestamp: time, topic, sentiment, outcome };
        let warm_cap: usize = match self.mode {
            MemoryMode::Ephemeral => 0,
            MemoryMode::Standard => WARM_MAX_STANDARD,
            MemoryMode::Longterm => WARM_MAX_LONGTERM,
        };
        if warm_cap > 0 {
            self.warm_storage.push_back(kept);
            if self.warm_storage.len() > warm_cap {
                self.warm_storage.pop_front();
            }
        }
        self.token_budget_used = self.token_budget_used + cost;
        proof {
            let ex = ExchangeView { user: user@, assistant: assistant@, timestamp: time };
            assert(self@.hot =~= bounded_push(old_hot, ex, 3));
            assert(self@.warm =~= bounded_push(old_warm, semantic@, warm_max(self@.mode)));
            lemma_hot_times_push(old_hot, ex, 3);
            lemma_rising_push(hot_times(old_hot), (time - 1) as u32, time, 3);
            lemma_warm_times_push(old_warm, semantic@, warm_max(self@.mode));
            lemma_rising_push(warm_times(old_warm), (time - 1) as u32, time, warm_max(self@.mode));
        }
        Some(semantic)
    }

    /// The context given to the assistant: nothing in ephemeral mode;
    /// otherwise the recent exchanges, the topics of the notes with the
    /// average mood, and the pinned memories, each part only when it is not
    /// empty.
    pub fn get_context(&self) -> (c: String)
        requires
            self.wf(),
        ensures
            c@ == context_of(self@.mode, self@),
    {
        if self.mode == MemoryMode::Ephemeral {
            return String::new();
        }
        let mut context = String::new();
        let ghost v = self@;
        if self.hot_storage.len() > 0 {
            context.append("Recent conversation:\n");
            let n = self.hot_storage.len();
            let mut i: usize = 0;
            while i < n
                invariant
                    n == v.hot.len(),
                    v == self@,
                    i <= n,
                    context@ == "Recent conversation:\n"@ + exchange_lines(v.hot.take(i as int)),
                decreases n - i,
            {
                let ex = &self.hot_storage[i];
                context.append("  User: ");
                context.append(ex.user.as_str());
                context.append("\n");
                context.append("  Thaleia: ");
                context.append(ex.assistant.as_str());
                context.append("\n");
                proof {
                    assert(v.hot.take(i + 1).drop_last() =~= v.hot.take(i as int));
                }
                i = i + 1;
            }
            assert(v.hot.take(n as int) =~= v.hot);
        }
        let ghost part1 = context@;
        if self.warm_storage.len() > 0 {
            context.append("\nTopics discussed: ");
            let n = self.warm_storage.len();
            let mut i: usize = 0;
            let mut sum: i32 = 0;
            while i < n
                invariant
                    n == v.warm.len(),
                    v == self@,
                    self.wf(),
                    i <= n,
                    context@ == part1 + "\nTopics discussed: "@ + joined_topics(
                        v.warm.take(i as int),
                    ),
                    sum == sentiment_sum(v.warm.take(i as int)),
                    -(i as int) <= sum <= i,
                decreases n - i,
            {
                let note = &self.warm_storage[i];
                if i > 0 {
                    context.append(", ");
                }
                context.append(note.topic.as_str());
                proof {
                    assert(v.warm.take(i + 1).drop_last() =~= v.warm.take(i as int));
                    assert(-1 <= v.warm[i as int].sentiment <= 1);
                }
                sum = sum + note.sentiment as i32;
                i = i + 1;
            }
            assert(v.warm.take(n as int) =~= v.warm);
            let len = n as i32;
            let avg: i32 = if sum >= 0 {
                sum / len
            } else {
                -((-sum) / len)
            };
            context.append("\nOverall mood: ");
            if -3 <= avg && avg <= -1 {
                context.append("somewhat negative");
            } else if 1 <= avg && avg <= 3 {
                context.append("positive");
            } else {
                context.append("neutral");
            }
            context.append("\n");
        }
        let ghost part2 = context@;
        if self.pinned_memories.len() > 0 {
            context.append("\nPinned memories:\n");
            let n = self.pinned_memories.len();
            let mut i: usize = 0;
            while i < n
                invariant
                    n == v.pinned.len(),
                    v == self@,
                    i <= n,
                    context@ == part2 + "\nPinned memories:\n"@ + pinned_lines(
                        v.pinned.take(i as int),
                    ),
                decreases n - i,
            {
                let mem = &self.pinned_memories[i];
                context.append("  - ");
                context.append(mem.content.as_str());
                context.append("\n");
                proof {
                    assert(v.pinned.take(i + 1).drop_last() =~= v.pinned.take(i as int));
                }
                i = i + 1;
            }
            assert(v.pinned.take(n as int) =~= v.pinned);
        }
        context
    }

    /// Pins a memory: it is appended to the pinned memories with the next
    /// interaction time.
    pub fn pin_memory(&mut self, content: &str, tags: Vec<String>)
        requires
            old(self).wf(),
            old(self)@.time_counter < u32::MAX,
        ensures
            final(self).wf(),
            final(self)@.mode == old(self)@.mode,
            final(self)@.start_time == old(self)@.start_time,
            final(self)@.token_budget_used == old(self)@.token_budget_used,
            final(self)@.time_counter == old(self)@.time_counter + 1,
            final(self)@.hot == old(self)@.hot,
            final(self)@.warm == old(self)@.warm,
            final(self)@.pinned == old(self)@.pinned.push(
                PinnedView {
                    content: content@,
                    created_at: (old(self)@.time_counter + 1) as u32,
                    tags: tags@.map_values(|t: String| t@),
                },
            ),
            final(self)@ == session_step(
                old(self)@,
                SessionOp::Pin { content: content@, tags: tags@.map_values(|t: String| t@) },
            ),
    {
        let created_at = self.current_time();
        let memory = PinnedMemory { content: String::from_str(content), created_at, tags };
        let ghost old_pinned = self@.pinned;
        self.pinned_memories.push(memory);
        assert(self@.pinned =~= old_pinned.push(memory@));
    }

    /// Whether an exchange can be recorded without the interaction counter
    /// or the token count overflowing.
    pub fn accepts_exchange(&self, user: &str, assistant: &str) -> (b: bool)
        ensures
            b == (self@.time_counter < u32::MAX && self@.token_budget_used + tokens_of(user@)
                + tokens_of(assistant@) <= usize::MAX),
    {
        let a = estimate_tokens(user);
        let b = estimate_tokens(assistant);
        self.time_counter < u32::MAX && a <= usize::MAX - self.token_budget_used && b
            <= usize::MAX - self.token_budget_used - a
    }

    /// Whether a memory can be pinned without the interaction counter
    /// overflowing.
    pub fn accepts_pin(&self) -> (b: bool)
        ensures
            b == (self@.time_counter < u32::MAX),
    {
        self.time_counter < u32::MAX
    }

    /// Number of recent exchanges kept in full.
    pub fn exchange_count(&self) -> (n: usize)
        ensures
            n == self@.hot.len(),
    {
        self.hot_storage.len()
    }

    /// Number of notes kept.
    pub fn note_count(&self) -> (n: usize)
        ensures
            n == self@.warm.len(),
    {
        self.warm_storage.len()
    }

    /// Number of pinned memories.
    pub fn pinned_count(&self) -> (n: usize)
        ensures
            n == self@.pinned.len(),
    {
        self.pinned_memories.len()
    }

    /// Tokens used and the budget.
    pub fn budget_info(&self) -> (r: (usize, usize))
        ensures
            r == (self@.token_budget_used, TOKEN_BUDGET_MAX),
    {
        (self.token_budget_used, TOKEN_BUDGET_MAX)
    }

    /// Whether the session is still under its token budget.
    pub fn under_budget(&self) -> (b: bool)
        ensures
            b == (self@.token_budget_used < TOKEN_BUDGET_MAX),
    {
        self.token_budget_used < TOKEN_BUDGET_MAX
    }
}

impl Default for SessionState {
    fn default() -> (s: Self)
        ensures
            s.wf(),
            s@.mode == MemoryMode::Standard,
            s@.token_budget_used == 0,
    {
        Self::new()
    }
}

/// One call that changes a session: recording an exchange or pinning a
/// memory.
pub enum SessionOp {
    /// `add_exchange` with a user utterance and the reply.
    Exchange { user: Seq<char>, assistant: Seq<char> },
    /// `pin_memory` with a content and its tags.
    Pin { content: Seq<char>, tags: Seq<Seq<char>> },
}

/// The session after one call.
pub open spec fn session_step(v: SessionView, op: SessionOp) -> SessionView {
    let t = (v.time_counter + 1) as u32;
    match op {
        SessionOp::Exchange { user, assistant } => SessionView {
            time_counter: t,
            token_budget_used: (v.token_budget_used + tokens_of(user) + tokens_of(
                assistant,
            )) as usize,
            hot: if v.mode == MemoryMode::Ephemeral {
                v.hot
            } else {
                bounded_push(v.hot, ExchangeView { user, assistant, timestamp: t }, 3)
            },
            warm: if v.mode == MemoryMode::Ephemeral {
                v.warm
            } else {
                bounded_push(v.warm, note_for(user, assistant, t), warm_max(v.mode))
            },
            ..v
        },
        SessionOp::Pin { content, tags } => SessionView {
            time_counter: t,
            pinned: v.pinned.push(PinnedView { content, created_at: t, tags }),
            ..v
        },
    }
}

/// The session after a run of calls, first to last.
pub open spec fn session_run(v: SessionView, ops: Seq<SessionOp>) -> SessionView
    decreases ops.len(),
{
    if ops.len() == 0 {
        v
    } else {
        session_run(session_step(v, ops[0]), ops.drop_first())
    }
}

/// The exchanges of a run of calls made from interaction time `t`, each
/// with the time its call gives it, in order.
pub open spec fn run_exchanges(t: u32, ops: Seq<SessionOp>) -> Seq<ExchangeView>
    decreases ops.len(),
{
    if ops.len() == 0 {
        Seq::empty()
    } else {
        let next = (t + 1) as u32;
        let rest = run_exchanges(next, ops.drop_first());
        match ops[0] {
            SessionOp::Exchange { user, assistant } => seq![
                ExchangeView { user, assistant, timestamp: next },
            ] + rest,
            SessionOp::Pin { .. } => rest,
        }
    }
}

/// The notes of the exchanges of a run of calls made from time `t`.
pub open spec fn run_notes(t: u32, ops: Seq<SessionOp>) -> Seq<NoteView>
    decreases ops.len(),
{
    if ops.len() == 0 {
        Seq::empty()
    } else {
        let next = (t + 1) as u32;
        let rest = run_notes(next, ops.drop_first());
        match ops[0] {
            SessionOp::Exchange { user, assistant } => seq![note_for(user, assistant, next)]
                + rest,
            SessionOp::Pin { .. } => rest,
        }
    }
}

/// Tokens that the exchanges of a run of calls add.
pub open spec fn run_tokens(ops: Seq<SessionOp>) -> int
    decreases ops.len(),
{
    if ops.len() == 0 {
        0
    } else {
        run_tokens(ops.drop_first()) + match ops[0] {
            SessionOp::Exchange { user, assistant } => tokens_of(user) + tokens_of(assistant),
            SessionOp::Pin { .. } => 0,
        }
    }
}

/// Over a run of calls the recent exchanges and the notes are bounded
/// appends of the run's exchanges and notes, one by one.
proof fn lemma_run_is_bounded_run(v: SessionView, ops: Seq<SessionOp>)
    requires
        v.mode != MemoryMode::Ephemeral,
    ensures
        session_run(v, ops).mode == v.mode,
        session_run(v, ops).hot == bounded_run(v.hot, run_exchanges(v.time_counter, ops), 3),
        session_run(v, ops).warm == bounded_run(
            v.warm,
            run_notes(v.time_counter, ops),
            warm_max(v.mode),
        ),
    decreases ops.len(),
{
    if ops.len() > 0 {
        let v1 = session_step(v, ops[0]);
        let rest = ops.drop_first();
        lemma_run_is_bounded_run(v1, rest);
        let re = run_exchanges(v1.time_counter, rest);
        let rn = run_notes(v1.time_counter, rest);
        match ops[0] {
            SessionOp::Exchange { user, assistant } => {
                let e = ExchangeView { user, assistant, timestamp: v1.time_counter };
                let n = note_for(user, assistant, v1.time_counter);
                assert((seq![e] + re).drop_first() =~= re);
                assert((seq![n] + rn).drop_first() =~= rn);
            },
            SessionOp::Pin { .. } => {},
        }
    }
}

/// Retention over any run of calls: in a remembering mode, however many
/// exchanges are recorded and memories pinned, the recent exchanges are
/// exactly the newest three of all exchanges so far, and the notes are
/// exactly the notes of the newest exchanges up to the mode's limit (20 in
/// standard mode, 100 in long-term mode), oldest first, each with the time
/// of its call. In ephemeral mode neither changes. The mode never changes.
pub proof fn lemma_session_retention(v: SessionView, ops: Seq<SessionOp>)
    requires
        v.mode != MemoryMode::Ephemeral ==> v.hot.len() <= 3 && v.warm.len() <= warm_max(v.mode),
    ensures
        session_run(v, ops).mode == v.mode,
        v.mode != MemoryMode::Ephemeral ==> {
            &&& session_run(v, ops).hot == last_n(v.hot + run_exchanges(v.time_counter, ops), 3)
            &&& session_run(v, ops).warm == last_n(
                v.warm + run_notes(v.time_counter, ops),
                warm_max(v.mode),
            )
        },
        v.mode == MemoryMode::Ephemeral ==> {
            &&& session_run(v, ops).hot == v.hot
            &&& session_run(v, ops).warm == v.warm
        },
    decreases ops.len(),
{
    if v.mode != MemoryMode::Ephemeral {
        lemma_run_is_bounded_run(v, ops);
        lemma_bounded_run_keeps_newest(v.hot, run_exchanges(v.time_counter, ops), 3);
        lemma_bounded_run_keeps_newest(v.warm, run_notes(v.time_counter, ops), warm_max(v.mode));
    } else if ops.len() > 0 {
        lemma_session_retention(session_step(v, ops[0]), ops.drop_first());
    }
}

/// The token count only grows: over a run of calls during which it does
/// not overflow, it grows by exactly the tokens of the run's exchanges, so
/// a session that is no longer under its budget never is again.
pub proof fn lemma_budget_only_grows(v: SessionView, ops: Seq<SessionOp>)
    requires
        v.token_budget_used + run_tokens(ops) <= usize::MAX,
    ensures
        session_run(v, ops).token_budget_used == v.token_budget_used + run_tokens(ops),
        session_run(v, ops).token_budget_used >= v.token_budget_used,
        !(v.token_budget_used < TOKEN_BUDGET_MAX) ==> !(session_run(v, ops).token_budget_used
            < TOKEN_BUDGET_MAX),
    decreases ops.len(),
{
    if ops.len() > 0 {
        lemma_run_tokens_nonneg(ops.drop_first());
        let v1 = session_step(v, ops[0]);
        match ops[0] {
            SessionOp::Exchange { user, assistant } => {
                assert(tokens_of(user) >= 0 && tokens_of(assistant) >= 0);
            },
            SessionOp::Pin { .. } => {},
        }
        lemma_budget_only_grows(v1, ops.drop_first());
    }
}

/// No run of calls subtracts tokens.
proof fn lemma_run_tokens_nonneg(ops: Seq<SessionOp>)
    ensures
        run_tokens(ops) >= 0,
    decreases ops.len(),
{
    if ops.len() > 0 {
        lemma_run_tokens_nonneg(ops.drop_first());
    }
}

/// The last `n` elements of a sequence (all of it when it is shorter).
pub open spec fn last_n<T>(t: Seq<T>, n: nat) -> Seq<T> {
    if t.len() <= n {
        t
    } else {
        t.subrange(t.len() - n, t.len() as int)
    }
}

/// Bounded appends of several elements, one after the other.
pub open spec fn bounded_run<T>(s: Seq<T>, xs: Seq<T>, max: nat) -> Seq<T>
    decreases xs.len(),
{
    if xs.len() == 0 {
        s
    } else {
        bounded_run(bounded_push(s, xs[0], max), xs.drop_first(), max)
    }
}

/// A bounded append keeps the newest `max` elements: the appended element
/// is last, the oldest are dropped, and the length stays within `max`.
pub proof fn lemma_bounded_push_keeps_newest<T>(s: Seq<T>, x: T, max: nat)
    requires
        max > 0,
        s.len() <= max,
    ensures
        bounded_push(s, x, max) == last_n(s.push(x), max),
        bounded_push(s, x, max).len() <= max,
        bounded_push(s, x, max).last() == x,
{
    let t = s.push(x);
    if t.len() > max {
        assert(t.drop_first() =~= t.subrange(t.len() - max, t.len() as int));
    }
}

/// However many exchanges are recorded, memory holds exactly the newest
/// ones up to its limit: bounded appends of a run of elements give the
/// last `max` elements of everything appended after what was there.
pub proof fn lemma_bounded_run_keeps_newest<T>(s: Seq<T>, xs: Seq<T>, max: nat)
    requires
        max > 0,
        s.len() <= max,
    ensures
        bounded_run(s, xs, max) == last_n(s + xs, max),
    decreases xs.len(),
{
    if xs.len() == 0 {
        assert(s + xs =~= s);
    } else {
        let s1 = bounded_push(s, xs[0], max);
        lemma_bounded_push_keeps_newest(s, xs[0], max);
        lemma_bounded_run_keeps_newest(s1, xs.drop_first(), max);
        let all = s + xs;
        let t = s.push(xs[0]);
        let rest = xs.drop_first();
        assert(t + rest =~= all);
        if t.len() <= max {
            assert(s1 + rest =~= all);
        } else {
            let k = t.len() - max;
            assert(s1 =~= t.subrange(k, t.len() as int));
            assert(s1 + rest =~= all.subrange(k, all.len() as int));
            if all.len() > max {
                assert(last_n(s1 + rest, max) =~= all.subrange(all.len() - max, all.len() as int));
            }
        }
    }
}

/// The mood that notes agree on: positive when every note is positive,
/// somewhat negative when every note is negative, else neutral.
pub open spec fn consensus_mood(notes: Seq<NoteView>) -> Seq<char> {
    if forall|i: int| 0 <= i < notes.len() ==> #[trigger] notes[i].sentiment == 1 {
        "positive"@
    } else if forall|i: int| 0 <= i < notes.len() ==> #[trigger] notes[i].sentiment == -1 {
        "somewhat negative"@
    } else {
        "neutral"@
    }
}

/// A sum of sentiments in [-1, 1] lies within the number of notes, and
/// reaches it exactly when every note is 1 (or its negation exactly when
/// every note is -1).
proof fn lemma_sentiment_sum_bounds(notes: Seq<NoteView>)
    requires
        forall|i: int| 0 <= i < notes.len() ==> -1 <= #[trigger] notes[i].sentiment <= 1,
    ensures
        -(notes.len() as int) <= sentiment_sum(notes) <= notes.len(),
        sentiment_sum(notes) == notes.len() <==> forall|i: int|
            0 <= i < notes.len() ==> #[trigger] notes[i].sentiment == 1,
        sentiment_sum(notes) == -(notes.len() as int) <==> forall|i: int|
            0 <= i < notes.len() ==> #[trigger] notes[i].sentiment == -1,
    decreases notes.len(),
{
    if notes.len() > 0 {
        let init = notes.drop_last();
        assert forall|i: int| 0 <= i < init.len() implies -1 <= #[trigger] init[i].sentiment
            <= 1 by {
            assert(init[i] == notes[i]);
        }
        lemma_sentiment_sum_bounds(init);
        let n = notes.len() - 1;
        if forall|i: int| 0 <= i < notes.len() ==> #[trigger] notes[i].sentiment == 1 {
            assert forall|i: int| 0 <= i < init.len() implies #[trigger] init[i].sentiment == 1 by {
                assert(init[i] == notes[i]);
            }
        }
        if sentiment_sum(notes) == notes.len() {
            assert forall|i: int| 0 <= i < notes.len() implies #[trigger] notes[i].sentiment
                == 1 by {
                if i < n {
                    assert(init[i] == notes[i]);
                }
            }
        }
        if forall|i: int| 0 <= i < notes.len() ==> #[trigger] notes[i].sentiment == -1 {
            assert forall|i: int| 0 <= i < init.len() implies #[trigger] init[i].sentiment
                == -1 by {
                assert(init[i] == notes[i]);
            }
        }
        if sentiment_sum(notes) == -(notes.len() as int) {
            assert forall|i: int| 0 <= i < notes.len() implies #[trigger] notes[i].sentiment
                == -1 by {
                if i < n {
                    assert(init[i] == notes[i]);
                }
            }
        }
    }
}

/// The overall mood of the context is what all the kept notes agree on,
/// not what any one of them says: with note sentiments in [-1, 1], it is
/// "positive" only when every note is positive, "somewhat negative" only
/// when every note is negative, and "neutral" otherwise; the rest of the
/// context is the recent exchanges, the topics of the notes, and the
/// pinned memories.
pub proof fn lemma_mood_is_what_all_notes_agree_on(mode: MemoryMode, v: SessionView)
    requires
        mode != MemoryMode::Ephemeral,
        v.warm.len() > 0,
        forall|i: int| 0 <= i < v.warm.len() ==> -1 <= #[trigger] v.warm[i].sentiment <= 1,
    ensures
        context_of(mode, v) == (if v.hot.len() > 0 {
            "Recent conversation:\n"@ + exchange_lines(v.hot)
        } else {
            Seq::empty()
        }) + "\nTopics discussed: "@ + joined_topics(v.warm) + "\nOverall mood: "@
            + consensus_mood(v.warm) + "\n"@ + (if v.pinned.len() > 0 {
            "\nPinned memories:\n"@ + pinned_lines(v.pinned)
        } else {
            Seq::empty()
        }),
{
    lemma_sentiment_sum_bounds(v.warm);
    let sum = sentiment_sum(v.warm);
    let n = v.warm.len() as int;
    let avg = div_toward_zero(sum, n);
    if sum == n {
        assert(avg == 1) by (nonlinear_arith)
            requires
                avg == div_toward_zero(sum, n),
                sum == n,
                n > 0,
        {
        }
    } else if sum == -n {
        assert(avg == -1) by (nonlinear_arith)
            requires
                avg == div_toward_zero(sum, n),
                sum == -n,
                n > 0,
        {
        }
        assert(!(forall|i: int| 0 <= i < v.warm.len() ==> #[trigger] v.warm[i].sentiment == 1))
            by {
            assert(v.warm[0].sentiment == -1);
        }
    } else {
        assert(avg == 0) by (nonlinear_arith)
            requires
                avg == div_toward_zero(sum, n),
                -n < sum < n,
                n > 0,
        {
        }
    }
    reveal_strlit("positive");
    reveal_strlit("somewhat negative");
    reveal_strlit("neutral");
}

/// An ephemeral session gives no context, whatever it holds.
pub proof fn lemma_ephemeral_context_empty(v: SessionView)
    ensures
        context_of(MemoryMode::Ephemeral, v) == Seq::<char>::empty(),
{
}

} // verus!
