//! Agent events, and the final reply they make on message channels.
use vstd::prelude::*;
use crate::diff::{DiffKind, DiffLine};
use crate::messages::catalog::message_spec;
use crate::messages::id::MessageId;
use crate::messages::locale::Locale;
use crate::messages::t;
use crate::text::{
    char_views, chars_of, copy_chars, join_chars, join_spec, push_all, slice_chars, string_chars,
    to_string, to_strings, trim, trim_spec, views, bytes_of, utf8_len, utf8_len_of,
};

verus! {

/// Events emitted by the agent loop for TUI and gateway consumers.
#[derive(Debug, Clone)]
pub enum AgentEvent {
    AssistantDelta { text: String },
    /// Reasoning (thinking) stream.
    ReasoningDelta { text: String },
    ToolCallStarted { name: String, arguments: String },
    ToolCallFinished { name: String, success: bool, output: String },
    /// Live tool output chunks.
    ToolOutputDelta { name: String, text: String },
    /// Diff preview after a successful edit or write.
    FileDiff { path: String, lines: Vec<SerializableDiffLine> },
    ApprovalRequired { command: String },
    ContextCompressed { summary: String },
    KnotsInjected { count: usize },
    /// The turn's reply is done; long-term memories are being extracted.
    KnotsExtracting,
    KnotsExtracted { count: usize },
    TurnCompleted,
    Error { message: String },
}

#[derive(Debug, Clone, Copy, PartialEq, Eq, Structural)]
pub enum SerializableDiffKind {
    Remove,
    Add,
    Context,
}

#[derive(Debug, Clone)]
pub struct SerializableDiffLine {
    pub kind: SerializableDiffKind,
    pub text: String,
}

pub open spec fn to_diff_kind(k: SerializableDiffKind) -> DiffKind {
    match k {
        SerializableDiffKind::Remove => DiffKind::Remove,
        SerializableDiffKind::Add => DiffKind::Add,
        SerializableDiffKind::Context => DiffKind::Context,
    }
}

pub open spec fn from_diff_kind(k: DiffKind) -> SerializableDiffKind {
    match k {
        DiffKind::Remove => SerializableDiffKind::Remove,
        DiffKind::Add => SerializableDiffKind::Add,
        DiffKind::Context => SerializableDiffKind::Context,
    }
}

impl From<DiffLine> for SerializableDiffLine {
    /// The serializable form of a diff line.
    fn from(line: DiffLine) -> (r: SerializableDiffLine) {
        let kind = match line.kind {
            DiffKind::Remove => SerializableDiffKind::Remove,
            DiffKind::Add => SerializableDiffKind::Add,
            DiffKind::Context => SerializableDiffKind::Context,
        };
        SerializableDiffLine { kind, text: line.text }
    }
}

impl vstd::std_specs::convert::FromSpecImpl<DiffLine> for SerializableDiffLine {
    open spec fn obeys_from_spec() -> bool {
        true
    }

    open spec fn from_spec(v: DiffLine) -> SerializableDiffLine {
        SerializableDiffLine { kind: from_diff_kind(v.kind), text: v.text }
    }
}

impl SerializableDiffLine {
    pub fn to_diff_line(&self) -> (r: DiffLine)
        ensures
            r.kind == to_diff_kind(self.kind),
            r.text@ == self.text@,
    {
        let kind = match self.kind {
            SerializableDiffKind::Remove => DiffKind::Remove,
            SerializableDiffKind::Add => DiffKind::Add,
            SerializableDiffKind::Context => DiffKind::Context,
        };
        DiffLine { kind, text: to_string(&string_chars(&self.text)) }
    }
}

/// A diff line read back from its serializable form is the line it came from.
pub proof fn law_diff_line_round_trip(k: DiffKind)
    ensures
        to_diff_kind(from_diff_kind(k)) == k,
{
}

/// What the events contribute to a channel reply: assistant text,
/// reasoning text, error messages.
pub open spec fn reply_parts(events: Seq<AgentEvent>) -> (Seq<char>, Seq<char>, Seq<Seq<char>>)
    decreases events.len(),
{
    if events.len() == 0 {
        (seq![], seq![], seq![])
    } else {
        let (a, r, e) = reply_parts(events.drop_last());
        match events.last() {
            AgentEvent::AssistantDelta { text } => (a + text@, r, e),
            AgentEvent::ReasoningDelta { text } => (a, r + text@, e),
            AgentEvent::Error { message } => (a, r, e.push(message@)),
            _ => (a, r, e),
        }
    }
}

/// The user-visible reply on a message channel: assistant text only (the
/// reasoning when there is no assistant text), else the errors, else a
/// fixed notice; trimmed.
pub open spec fn channel_reply_spec(events: Seq<AgentEvent>) -> Seq<char> {
    let (a, r, e) = reply_parts(events);
    let out = if trim_spec(a).len() == 0 && r.len() > 0 {
        r
    } else {
        a
    };
    if trim_spec(out).len() == 0 && e.len() > 0 {
        join_spec(e, "\n"@)
    } else if trim_spec(out).len() == 0 {
        message_spec(Locale::En, MessageId::EmptyChannelReply, seq![])
    } else {
        trim_spec(out)
    }
}

pub fn channel_reply_text(events: &[AgentEvent]) -> (r: String)
    ensures
        r@ == channel_reply_spec(events@),
{
    let mut assistant: Vec<char> = Vec::new();
    let mut reasoning: Vec<char> = Vec::new();
    let mut errors: Vec<Vec<char>> = Vec::new();
    let mut i: usize = 0;
    assert(events@.take(0) =~= Seq::<AgentEvent>::empty());
    assert(char_views(errors@) =~= Seq::<Seq<char>>::empty());
    while i < events.len()
        invariant
            i <= events@.len(),
            reply_parts(events@.take(i as int)) == (assistant@, reasoning@, char_views(errors@)),
        decreases events@.len() - i,
    {
        proof {
            assert(events@.take(i + 1).drop_last() =~= events@.take(i as int));
        }
        match &events[i] {
            AgentEvent::AssistantDelta { text } => {
                let v = string_chars(text);
                push_all(&mut assistant, &v);
            },
            AgentEvent::ReasoningDelta { text } => {
                let v = string_chars(text);
                push_all(&mut reasoning, &v);
            },
            AgentEvent::Error { message } => {
                let v = string_chars(message);
                proof {
                    crate::approval::shell_cmd::lemma_char_views_push(errors@, v);
                }
                errors.push(v);
            },
            _ => {},
        }
        i += 1;
    }
    assert(events@.take(events@.len() as int) =~= events@);
    let out = if trim(&assistant).len() == 0 && reasoning.len() > 0 {
        reasoning
    } else {
        assistant
    };
    let trimmed = trim(&out);
    if trimmed.len() == 0 && errors.len() > 0 {
        proof {
            reveal_strlit("\n");
        }
        to_string(&join_chars(&errors, &chars_of("\n")))
    } else if trimmed.len() == 0 {
        let none: Vec<String> = Vec::new();
        assert(views(none@) =~= Seq::<Seq<char>>::empty());
        t(Locale::En, MessageId::EmptyChannelReply, none.as_slice())
    } else {
        to_string(&trimmed)
    }
}

/// Default UTF-8 byte limit of one outbound IM message chunk.
pub const DEFAULT_CHANNEL_CHUNK_BYTES: usize = 20480;

/// End of the longest run from `k` whose UTF-8 bytes fit in `budget`.
pub open spec fn fit_end(s: Seq<char>, k: int, budget: int) -> int
    decreases s.len() - k,
{
    if k < 0 || k >= s.len() || utf8_len(s[k]) > budget {
        k
    } else {
        fit_end(s, k + 1, budget - utf8_len(s[k]))
    }
}

/// Index just after the last `\n` of `s[start..e]`, or `start` when none.
pub open spec fn last_newline_end(s: Seq<char>, start: int, e: int) -> int
    decreases e - start,
{
    if e <= start {
        start
    } else if s[e - 1] == '\n' {
        e
    } else {
        last_newline_end(s, start, e - 1)
    }
}

/// Where the chunk starting at `start` ends: after its last newline when it
/// has one, else after as many characters as fit (at least one).
pub open spec fn chunk_end(s: Seq<char>, start: int, max: int) -> int {
    let e0 = fit_end(s, start, max);
    let e = if e0 <= start {
        start + 1
    } else {
        e0
    };
    let nl = last_newline_end(s, start, e0);
    if nl > start {
        nl
    } else {
        e
    }
}

pub open spec fn chunks_go(s: Seq<char>, start: int, max: int) -> Seq<Seq<char>>
    decreases s.len() - start,
{
    if start < 0 || start >= s.len() || chunk_end(s, start, max) <= start || chunk_end(
        s,
        start,
        max,
    ) > s.len() {
        seq![]
    } else {
        seq![s.subrange(start, chunk_end(s, start, max))] + chunks_go(
            s,
            chunk_end(s, start, max),
            max,
        )
    }
}

/// A reply split into chunks of at most `max` UTF-8 bytes (a single wider
/// character is a chunk of its own), preferring to break after a newline.
pub open spec fn split_message_spec(s: Seq<char>, max: int) -> Seq<Seq<char>> {
    if s.len() == 0 {
        seq![]
    } else if max == 0 || bytes_of(s) <= max {
        seq![s]
    } else {
        chunks_go(s, 0, max)
    }
}

proof fn lemma_fit_end_bounds(s: Seq<char>, k: int, budget: int)
    requires
        0 <= k <= s.len(),
    ensures
        k <= fit_end(s, k, budget) <= s.len(),
    decreases s.len() - k,
{
    if k < s.len() && utf8_len(s[k]) <= budget {
        lemma_fit_end_bounds(s, k + 1, budget - utf8_len(s[k]));
    }
}

proof fn lemma_last_newline_bounds(s: Seq<char>, start: int, e: int)
    requires
        0 <= start,
        e <= s.len(),
    ensures
        start <= last_newline_end(s, start, e),
        start < e ==> last_newline_end(s, start, e) <= e,
    decreases e - start,
{
    if e > start && s[e - 1] != '\n' {
        lemma_last_newline_bounds(s, start, e - 1);
    }
}

proof fn lemma_chunk_end_bounds(s: Seq<char>, start: int, max: int)
    requires
        0 <= start < s.len(),
    ensures
        start < chunk_end(s, start, max) <= s.len(),
{
    lemma_fit_end_bounds(s, start, max);
    lemma_last_newline_bounds(s, start, fit_end(s, start, max));
}

/// Whether the text's UTF-8 bytes fit in `max`.
fn fits_in(s: &Vec<char>, max: usize) -> (r: bool)
    ensures
        r == (bytes_of(s@) <= max),
{
    let mut acc: usize = 0;
    let mut i: usize = 0;
    while i < s.len()
        invariant
            i <= s.len(),
            acc == bytes_of(s@.take(i as int)),
            acc <= max,
        decreases s.len() - i,
    {
        let n = utf8_len_of(s[i]);
        assert(s@.take(i + 1).drop_last() =~= s@.take(i as int));
        if n > max - acc {
            proof {
                lemma_bytes_prefix(s@, i + 1);
            }
            return false;
        }
        acc += n;
        i += 1;
    }
    assert(s@.take(s.len() as int) =~= s@);
    true
}

proof fn lemma_bytes_prefix(s: Seq<char>, k: int)
    requires
        0 <= k <= s.len(),
    ensures
        bytes_of(s.take(k)) <= bytes_of(s),
    decreases s.len() - k,
{
    if k < s.len() {
        lemma_bytes_prefix(s, k + 1);
        assert(s.take(k + 1).drop_last() =~= s.take(k));
    } else {
        assert(s.take(k) =~= s);
    }
}

fn chunk_end_at(s: &Vec<char>, start: usize, max: usize) -> (r: usize)
    requires
        start < s.len(),
    ensures
        r == chunk_end(s@, start as int, max as int),
        start < r <= s.len(),
{
    let mut k = start;
    let mut budget = max;
    let mut last_nl = start;
    while k < s.len() && utf8_len_of(s[k]) <= budget
        invariant
            start <= k <= s.len(),
            budget <= max,
            fit_end(s@, k as int, budget as int) == fit_end(s@, start as int, max as int),
            last_newline_end(s@, start as int, k as int) == last_nl,
        decreases s.len() - k,
    {
        budget -= utf8_len_of(s[k]);
        if s[k] == '\n' {
            last_nl = k + 1;
        }
        k += 1;
    }
    proof {
        lemma_chunk_end_bounds(s@, start as int, max as int);
    }
    let e = if k == start {
        start + 1
    } else {
        k
    };
    if last_nl > start {
        last_nl
    } else {
        e
    }
}

/// Splits a long reply into chunks for message channels, without losing text.
pub fn split_channel_message(text: &str, max_bytes: usize) -> (r: Vec<String>)
    ensures
        views(r@) == split_message_spec(text@, max_bytes as int),
{
    let s = chars_of(text);
    let mut out: Vec<Vec<char>> = Vec::new();
    if s.len() == 0 {
        let r: Vec<String> = Vec::new();
        assert(views(r@) =~= Seq::<Seq<char>>::empty());
        return r;
    }
    if max_bytes == 0 || fits_in(&s, max_bytes) {
        out.push(copy_chars(&s));
        assert(char_views(out@) =~= seq![s@]);
        return to_strings(&out);
    }
    let mut start: usize = 0;
    assert(char_views(out@) =~= Seq::<Seq<char>>::empty());
    while start < s.len()
        invariant
            start <= s.len(),
            char_views(out@) + chunks_go(s@, start as int, max_bytes as int) == chunks_go(
                s@,
                0,
                max_bytes as int,
            ),
        decreases s.len() - start,
    {
        let e = chunk_end_at(&s, start, max_bytes);
        let piece = slice_chars(&s, start, e);
        let ghost before = char_views(out@);
        proof {
            crate::approval::shell_cmd::lemma_char_views_push(out@, piece);
            assert(before.push(piece@) + chunks_go(s@, e as int, max_bytes as int) =~= before + (
            seq![piece@] + chunks_go(s@, e as int, max_bytes as int)));
        }
        out.push(piece);
        start = e;
    }
    assert(char_views(out@) =~= char_views(out@) + Seq::<Seq<char>>::empty());
    to_strings(&out)
}

/// Concatenation of a list of texts.
pub open spec fn concat_all(parts: Seq<Seq<char>>) -> Seq<char>
    decreases parts.len(),
{
    if parts.len() == 0 {
        seq![]
    } else {
        parts[0] + concat_all(parts.drop_first())
    }
}

proof fn lemma_chunks_concat(s: Seq<char>, start: int, max: int)
    requires
        0 <= start <= s.len(),
    ensures
        concat_all(chunks_go(s, start, max)) == s.skip(start),
    decreases s.len() - start,
{
    if start < s.len() {
        lemma_chunk_end_bounds(s, start, max);
        let e = chunk_end(s, start, max);
        lemma_chunks_concat(s, e, max);
        let c = chunks_go(s, start, max);
        assert(c.drop_first() =~= chunks_go(s, e, max));
        assert(s.skip(start) =~= s.subrange(start, e) + s.skip(e));
    } else {
        assert(s.skip(start) =~= Seq::<char>::empty());
    }
}

/// Splitting loses nothing: the chunks put together give the text back.
pub proof fn law_split_channel_message_lossless(s: Seq<char>, max: int)
    requires
        max >= 0,
    ensures
        concat_all(split_message_spec(s, max)) == s,
{
    if s.len() == 0 {
        assert(s =~= Seq::<char>::empty());
    } else if max == 0 || bytes_of(s) <= max {
        assert(seq![s].drop_first() =~= Seq::<Seq<char>>::empty());
        assert(concat_all(Seq::<Seq<char>>::empty()) == Seq::<char>::empty());
        assert(seq![s][0] == s);
        assert(s + Seq::<char>::empty() =~= s);
    } else {
        lemma_chunks_concat(s, 0, max);
        assert(s.skip(0) =~= s);
    }
}

proof fn lemma_bytes_concat(a: Seq<char>, b: Seq<char>)
    ensures
        bytes_of(a + b) == bytes_of(a) + bytes_of(b),
    decreases b.len(),
{
    if b.len() == 0 {
        assert(a + b =~= a);
    } else {
        lemma_bytes_concat(a, b.drop_last());
        assert((a + b).drop_last() =~= a + b.drop_last());
        assert((a + b).last() == b.last());
    }
}

proof fn lemma_fit_end_bytes(s: Seq<char>, k: int, budget: int)
    requires
        0 <= k <= s.len(),
        budget >= 0,
    ensures
        bytes_of(s.subrange(k, fit_end(s, k, budget))) <= budget,
    decreases s.len() - k,
{
    if k < s.len() && utf8_len(s[k]) <= budget {
        let rest = budget - utf8_len(s[k]);
        lemma_fit_end_bounds(s, k + 1, rest);
        lemma_fit_end_bytes(s, k + 1, rest);
        let f = fit_end(s, k, budget);
        assert(s.subrange(k, f) =~= seq![s[k]] + s.subrange(k + 1, f));
        lemma_bytes_concat(seq![s[k]], s.subrange(k + 1, f));
        assert(seq![s[k]].drop_last() =~= Seq::<char>::empty());
        assert(bytes_of(Seq::<char>::empty()) == 0);
        assert(bytes_of(seq![s[k]]) == utf8_len(s[k]));
        assert(f == fit_end(s, k + 1, rest));
    } else {
        assert(fit_end(s, k, budget) == k);
        assert(bytes_of(Seq::<char>::empty()) == 0);
        assert(s.subrange(k, k) =~= Seq::<char>::empty());
    }
}

proof fn lemma_chunk_bytes(s: Seq<char>, start: int, max: int)
    requires
        0 <= start < s.len(),
        max >= 0,
    ensures
        bytes_of(s.subrange(start, chunk_end(s, start, max))) <= max || chunk_end(s, start, max)
            == start + 1,
{
    lemma_fit_end_bounds(s, start, max);
    lemma_fit_end_bytes(s, start, max);
    let e0 = fit_end(s, start, max);
    lemma_last_newline_bounds(s, start, e0);
    let nl = last_newline_end(s, start, e0);
    if nl > start {
        let whole = s.subrange(start, e0);
        assert(whole.take(nl - start) =~= s.subrange(start, nl));
        crate::text::lemma_bytes_of_prefix(whole, nl - start);
    }
}

proof fn lemma_chunks_bounded(s: Seq<char>, start: int, max: int)
    requires
        0 <= start <= s.len(),
        max >= 0,
    ensures
        forall|i: int|
            0 <= i < chunks_go(s, start, max).len() ==> bytes_of(
                #[trigger] chunks_go(s, start, max)[i],
            ) <= max || chunks_go(s, start, max)[i].len() == 1,
    decreases s.len() - start,
{
    if start < s.len() {
        lemma_chunk_end_bounds(s, start, max);
        lemma_chunk_bytes(s, start, max);
        let e = chunk_end(s, start, max);
        lemma_chunks_bounded(s, e, max);
        let c = chunks_go(s, start, max);
        assert forall|i: int| 0 <= i < c.len() implies bytes_of(#[trigger] c[i]) <= max
            || c[i].len() == 1 by {
            if i > 0 {
                assert(c[i] == chunks_go(s, e, max)[i - 1]);
            }
        }
    }
}

/// With a positive limit, every chunk fits in `max` UTF-8 bytes, unless it
/// is a single character wider than the limit.
pub proof fn law_split_channel_message_fits(s: Seq<char>, max: int)
    requires
        max > 0,
    ensures
        forall|i: int|
            0 <= i < split_message_spec(s, max).len() ==> bytes_of(
                #[trigger] split_message_spec(s, max)[i],
            ) <= max || split_message_spec(s, max)[i].len() == 1,
{
    if s.len() > 0 && bytes_of(s) > max {
        lemma_chunks_bounded(s, 0, max);
    }
}

proof fn lemma_last_newline_found(s: Seq<char>, start: int, e: int)
    requires
        0 <= start,
        e <= s.len(),
    ensures
        last_newline_end(s, start, e) > start ==> s[last_newline_end(s, start, e) - 1] == '\n',
        last_newline_end(s, start, e) == start ==> forall|m: int|
            start <= m < e ==> #[trigger] s[m] != '\n',
    decreases e - start,
{
    if e > start && s[e - 1] != '\n' {
        lemma_last_newline_found(s, start, e - 1);
    }
}

proof fn lemma_chunk_newline(s: Seq<char>, start: int, max: int)
    requires
        0 <= start < s.len(),
        max > 0,
    ensures
        ({
            let c = s.subrange(start, chunk_end(s, start, max));
            c.len() > 0 && (c.contains('\n') ==> c.last() == '\n')
        }),
{
    lemma_chunk_end_bounds(s, start, max);
    lemma_fit_end_bounds(s, start, max);
    let e0 = fit_end(s, start, max);
    lemma_last_newline_bounds(s, start, e0);
    lemma_last_newline_found(s, start, e0);
    let e = chunk_end(s, start, max);
    let c = s.subrange(start, e);
    if c.contains('\n') {
        let m = choose|m: int| 0 <= m < c.len() && c[m] == '\n';
        assert(s[start + m] == '\n');
        if last_newline_end(s, start, e0) == start {
            if e0 <= start {
                assert(m == 0);
                assert(utf8_len(s[start]) == 1);
                lemma_fit_end_bounds(s, start + 1, max - 1);
                assert(false);
            }
        }
    }
}

proof fn lemma_chunks_newlines(s: Seq<char>, start: int, max: int)
    requires
        0 <= start <= s.len(),
        max > 0,
    ensures
        forall|i: int|
            0 <= i < chunks_go(s, start, max).len() ==> (#[trigger] chunks_go(s, start, max)[i]).len()
                > 0 && (chunks_go(s, start, max)[i].contains('\n') ==> chunks_go(
                s,
                start,
                max,
            )[i].last() == '\n'),
    decreases s.len() - start,
{
    if start < s.len() {
        lemma_chunk_end_bounds(s, start, max);
        lemma_chunk_newline(s, start, max);
        let e = chunk_end(s, start, max);
        lemma_chunks_newlines(s, e, max);
        let c = chunks_go(s, start, max);
        assert forall|i: int| 0 <= i < c.len() implies (#[trigger] c[i]).len() > 0 && (
        c[i].contains('\n') ==> c[i].last() == '\n') by {
            if i > 0 {
                assert(c[i] == chunks_go(s, e, max)[i - 1]);
            }
        }
    }
}

/// When the text has to be split, no chunk is empty and a chunk that holds
/// a newline ends right after its last one: breaks fall after newlines
/// wherever one fits.
pub proof fn law_split_channel_message_breaks_after_newline(s: Seq<char>, max: int)
    requires
        max > 0,
        bytes_of(s) > max,
    ensures
        forall|i: int|
            0 <= i < split_message_spec(s, max).len() ==> (#[trigger] split_message_spec(s, max)[i]).len()
                > 0 && (split_message_spec(s, max)[i].contains('\n') ==> split_message_spec(
                s,
                max,
            )[i].last() == '\n'),
{
    if s.len() == 0 {
        assert(bytes_of(s) == 0);
    }
    lemma_chunks_newlines(s, 0, max);
}

/// The full channel reply, split into chunks for delivery.
pub fn channel_reply_chunks(events: &[AgentEvent], max_bytes: usize) -> (r: Vec<String>)
    ensures
        views(r@) == split_message_spec(channel_reply_spec(events@), max_bytes as int),
{
    let text = channel_reply_text(events);
    split_channel_message(text.as_str(), max_bytes)
}

} // verus!
