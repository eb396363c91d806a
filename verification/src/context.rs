//! Context budgeting: token estimates, where to compress, and emergency trims.
use vstd::prelude::*;
use crate::config::context::{k_tokens, ContextConfig};
use crate::llm::{call_views, msg_views, ChatMessage, LlmRequest, MessageView, Role, ToolCallView};
use crate::text::{
    byte_len, bytes_of, chars_of, decimal, decimal_spec, lemma_bytes_nonneg, matches_at, occurs_at,
    push_all, push_str, string_chars, to_string, utf8_len_of,
};

verus! {

/// Appended to a message whose text was cut to fit the budget.
pub const TRUNC_SUFFIX: &'static str = "\n...[content truncated to fit context budget]";

/// The instruction given to the model that writes a compression summary.
pub const SUMMARY_SYSTEM: &'static str = "Summarize the conversation excerpt below. Preserve key decisions, file paths, tool outcomes, and open tasks. Reply in the same language as the excerpt. Be concise.";

// ---------------------------------------------------------------- estimates

pub open spec fn calls_weight(calls: Seq<ToolCallView>) -> int
    decreases calls.len(),
{
    if calls.len() == 0 {
        0
    } else {
        calls_weight(calls.drop_last()) + bytes_of(calls.last().name) + bytes_of(
            calls.last().arguments,
        ) + bytes_of(calls.last().id)
    }
}

/// The size of a message: characters of its text and reasoning, UTF-8
/// bytes of its tool calls and tool-call id.
pub open spec fn msg_weight(m: MessageView) -> int {
    m.content.len() + match m.reasoning_content {
        Some(r) => r.len() as int,
        None => 0,
    } + match m.tool_calls {
        Some(c) => calls_weight(c),
        None => 0,
    } + match m.tool_call_id {
        Some(i) => bytes_of(i),
        None => 0,
    }
}

pub open spec fn total_weight(ms: Seq<MessageView>) -> int
    decreases ms.len(),
{
    if ms.len() == 0 {
        0
    } else {
        total_weight(ms.drop_last()) + msg_weight(ms.last())
    }
}

/// `x / 4`, rounded up.
pub open spec fn ceil4(x: int) -> int {
    (x + 3) / 4
}

/// About four characters per token.
pub open spec fn estimate_spec(ms: Seq<MessageView>) -> int {
    ceil4(total_weight(ms))
}

proof fn lemma_calls_weight_nonneg(c: Seq<ToolCallView>)
    ensures
        calls_weight(c) >= 0,
    decreases c.len(),
{
    if c.len() > 0 {
        lemma_calls_weight_nonneg(c.drop_last());
        lemma_bytes_nonneg(c.last().name);
        lemma_bytes_nonneg(c.last().arguments);
        lemma_bytes_nonneg(c.last().id);
    }
}

proof fn lemma_msg_weight_nonneg(m: MessageView)
    ensures
        msg_weight(m) >= 0,
{
    if m.tool_calls is Some {
        lemma_calls_weight_nonneg(m.tool_calls->0);
    }
    if m.tool_call_id is Some {
        lemma_bytes_nonneg(m.tool_call_id->0);
    }
}

proof fn lemma_total_weight_nonneg(ms: Seq<MessageView>)
    ensures
        total_weight(ms) >= 0,
    decreases ms.len(),
{
    if ms.len() > 0 {
        lemma_total_weight_nonneg(ms.drop_last());
        lemma_msg_weight_nonneg(ms.last());
    }
}

proof fn lemma_total_weight_prefix(ms: Seq<MessageView>, k: int)
    requires
        0 <= k <= ms.len(),
    ensures
        0 <= total_weight(ms.take(k)) <= total_weight(ms),
    decreases ms.len() - k,
{
    lemma_total_weight_nonneg(ms.take(k));
    if k < ms.len() {
        lemma_total_weight_prefix(ms, k + 1);
        assert(ms.take(k + 1).drop_last() =~= ms.take(k));
        lemma_msg_weight_nonneg(ms[k]);
    } else {
        assert(ms.take(k) =~= ms);
    }
}

proof fn lemma_msg_le_total(ms: Seq<MessageView>, i: int)
    requires
        0 <= i < ms.len(),
    ensures
        0 <= msg_weight(ms[i]) <= total_weight(ms),
{
    lemma_total_weight_prefix(ms, i);
    lemma_total_weight_prefix(ms, i + 1);
    assert(ms.take(i + 1).drop_last() =~= ms.take(i));
    lemma_msg_weight_nonneg(ms[i]);
}

fn calls_char_weight(calls: &Vec<crate::llm::ToolCall>) -> (n: usize)
    requires
        calls_weight(call_views(calls@)) <= usize::MAX,
    ensures
        n == calls_weight(call_views(calls@)),
{
    let ghost cv = call_views(calls@);
    let mut acc: usize = 0;
    let mut i: usize = 0;
    while i < calls.len()
        invariant
            i <= calls@.len(),
            cv == call_views(calls@),
            calls_weight(cv) <= usize::MAX,
            acc == calls_weight(cv.take(i as int)),
        decreases calls@.len() - i,
    {
        proof {
            assert(cv.take(i + 1).drop_last() =~= cv.take(i as int));
            assert(cv.take(i + 1).last() == calls@[i as int]@);
            lemma_calls_prefix(cv, i + 1);
            lemma_calls_weight_nonneg(cv.take(i as int));
            lemma_bytes_nonneg(calls@[i as int].name@);
            lemma_bytes_nonneg(calls@[i as int].arguments@);
            lemma_bytes_nonneg(calls@[i as int].id@);
        }
        let c = &calls[i];
        let a = byte_len(c.name.as_str());
        let b = byte_len(c.arguments.as_str());
        let d = byte_len(c.id.as_str());
        acc = acc + a + b + d;
        i += 1;
    }
    assert(cv.take(calls@.len() as int) =~= cv);
    acc
}

proof fn lemma_calls_prefix(c: Seq<ToolCallView>, k: int)
    requires
        0 <= k <= c.len(),
    ensures
        calls_weight(c.take(k)) <= calls_weight(c),
    decreases c.len() - k,
{
    if k < c.len() {
        lemma_calls_prefix(c, k + 1);
        assert(c.take(k + 1).drop_last() =~= c.take(k));
        lemma_bytes_nonneg(c[k].name);
        lemma_bytes_nonneg(c[k].arguments);
        lemma_bytes_nonneg(c[k].id);
    } else {
        assert(c.take(k) =~= c);
    }
}

fn message_char_weight(m: &ChatMessage) -> (n: usize)
    requires
        msg_weight(m@) <= usize::MAX,
    ensures
        n == msg_weight(m@),
{
    proof {
        if m@.tool_calls is Some {
            lemma_calls_weight_nonneg(m@.tool_calls->0);
        }
        if m@.tool_call_id is Some {
            lemma_bytes_nonneg(m@.tool_call_id->0);
        }
    }
    let mut n = m.content.as_str().unicode_len();
    match &m.reasoning_content {
        Some(r) => {
            n = n + r.as_str().unicode_len();
        },
        None => {},
    }
    match &m.tool_calls {
        Some(calls) => {
            n = n + calls_char_weight(calls);
        },
        None => {},
    }
    match &m.tool_call_id {
        Some(id) => {
            n = n + byte_len(id.as_str());
        },
        None => {},
    }
    n
}

fn total_char_weight(messages: &[ChatMessage]) -> (n: usize)
    requires
        total_weight(msg_views(messages@)) <= usize::MAX,
    ensures
        n == total_weight(msg_views(messages@)),
{
    let ghost mv = msg_views(messages@);
    let mut acc: usize = 0;
    let mut i: usize = 0;
    while i < messages.len()
        invariant
            i <= messages@.len(),
            mv == msg_views(messages@),
            total_weight(mv) <= usize::MAX,
            acc == total_weight(mv.take(i as int)),
        decreases messages@.len() - i,
    {
        proof {
            assert(mv.take(i + 1).drop_last() =~= mv.take(i as int));
            assert(mv.take(i + 1).last() == messages@[i as int]@);
            lemma_total_weight_prefix(mv, i + 1);
            lemma_total_weight_prefix(mv, i as int);
            lemma_msg_le_total(mv, i as int);
        }
        let w = message_char_weight(&messages[i]);
        acc = acc + w;
        i += 1;
    }
    assert(mv.take(messages@.len() as int) =~= mv);
    acc
}

/// Rough token estimate (about four characters per token).
pub fn estimate_tokens(messages: &[ChatMessage]) -> (r: usize)
    requires
        total_weight(msg_views(messages@)) <= usize::MAX,
    ensures
        r == estimate_spec(msg_views(messages@)),
{
    let w = total_char_weight(messages);
    w / 4 + if w % 4 > 0 {
        1
    } else {
        0
    }
}

fn message_tokens(m: &ChatMessage) -> (r: usize)
    requires
        msg_weight(m@) <= usize::MAX,
    ensures
        r == ceil4(msg_weight(m@)),
{
    let w = message_char_weight(m);
    w / 4 + if w % 4 > 0 {
        1
    } else {
        0
    }
}

/// Token count above which compression or an emergency trim may run.
pub fn compression_threshold_tokens(config: &ContextConfig) -> (r: usize)
    ensures
        r == k_tokens(config.compress_at_k),
{
    config.compression_threshold_tokens()
}

pub fn over_context_budget(messages: &[ChatMessage], config: &ContextConfig) -> (r: bool)
    requires
        total_weight(msg_views(messages@)) <= usize::MAX,
    ensures
        r == (config.enabled && estimate_spec(msg_views(messages@)) > k_tokens(
            config.compress_at_k,
        )),
{
    config.enabled && estimate_tokens(messages) > compression_threshold_tokens(config)
}

// ---------------------------------------------------------------- split points

/// Walking back from message `i` with `tail` tokens kept so far: where the
/// protected tail starts.
pub open spec fn tail_go(h: Seq<MessageView>, protect: int, i: int, tail: int) -> int
    decreases i,
{
    if i < 1 {
        1
    } else {
        let mt = ceil4(msg_weight(h[i]));
        if tail + mt > protect && tail > 0 {
            i + 1
        } else if tail + mt >= protect {
            i
        } else {
            tail_go(h, protect, i - 1, tail + mt)
        }
    }
}

/// Index where the protected tail of `protect` tokens begins (after the system message).
pub open spec fn tail_split_spec(h: Seq<MessageView>, protect: int) -> int {
    if h.len() <= 1 || protect == 0 {
        h.len() as int
    } else {
        tail_go(h, protect, h.len() - 1, 0)
    }
}

pub fn tail_split_index(history: &[ChatMessage], protect_tail_tokens: usize) -> (r: usize)
    requires
        total_weight(msg_views(history@)) <= usize::MAX,
    ensures
        r == tail_split_spec(msg_views(history@), protect_tail_tokens as int),
{
    let ghost hv = msg_views(history@);
    if history.len() <= 1 || protect_tail_tokens == 0 {
        return history.len();
    }
    let mut tail: u128 = 0;
    let mut i: usize = history.len() - 1;
    while i >= 1
        invariant
            i < history@.len(),
            hv == msg_views(history@),
            total_weight(hv) <= usize::MAX,
            tail < protect_tail_tokens,
            tail_go(hv, protect_tail_tokens as int, i as int, tail as int) == tail_go(
                hv,
                protect_tail_tokens as int,
                history@.len() - 1,
                0,
            ),
        decreases i,
    {
        proof {
            lemma_msg_le_total(hv, i as int);
            assert(hv[i as int] == history@[i as int]@);
        }
        let mt = message_tokens(&history[i]) as u128;
        if tail + mt > protect_tail_tokens as u128 && tail > 0 {
            return i + 1;
        }
        let ghost old_tail = tail;
        tail = tail + mt;
        if tail >= protect_tail_tokens as u128 {
            return i;
        }
        assert(tail_go(hv, protect_tail_tokens as int, i as int, old_tail as int) == tail_go(
            hv,
            protect_tail_tokens as int,
            i - 1,
            tail as int,
        ));
        if i == 1 {
            return 1;
        }
        i -= 1;
    }
    1
}

/// Index of the last user message after position 1, else 1.
pub open spec fn last_user_go(h: Seq<MessageView>, i: int) -> int
    decreases i,
{
    if i <= 1 {
        1
    } else if h[i].role == Role::User {
        i
    } else {
        last_user_go(h, i - 1)
    }
}

/// Split point for summarization: the protected tail, else the last user turn.
pub open spec fn compression_split_spec(h: Seq<MessageView>, config: ContextConfig) -> int {
    let by_tail = tail_split_spec(h, k_tokens(config.protect_tail_k));
    if by_tail > 1 {
        by_tail
    } else {
        last_user_go(h, h.len() - 1)
    }
}

pub fn compression_split_index(history: &[ChatMessage], config: &ContextConfig) -> (r: usize)
    requires
        total_weight(msg_views(history@)) <= usize::MAX,
    ensures
        r == compression_split_spec(msg_views(history@), *config),
{
    let by_tail = tail_split_index(history, config.protect_tail_tokens());
    if by_tail > 1 {
        return by_tail;
    }
    let ghost hv = msg_views(history@);
    if history.len() == 0 {
        return 1;
    }
    let mut i: usize = history.len() - 1;
    while i > 1
        invariant
            i < history@.len(),
            hv == msg_views(history@),
            tail_split_spec(hv, k_tokens(config.protect_tail_k)) <= 1,
            last_user_go(hv, i as int) == last_user_go(hv, history@.len() - 1),
        decreases i,
    {
        assert(hv[i as int] == history@[i as int]@);
        if history[i].role == Role::User {
            return i;
        }
        i -= 1;
    }
    1
}

/// The history after compression at `split`: the system message and the
/// messages from `split` on (unchanged when there is nothing between them).
pub open spec fn compression_trim_spec(h: Seq<MessageView>, split: int) -> Seq<MessageView> {
    if split <= 1 || h.len() <= split {
        h
    } else {
        seq![h[0]] + h.skip(split)
    }
}

/// Keeps the system message and the messages from `split_index` on.
pub fn apply_compression_trim(history: &mut Vec<ChatMessage>, split_index: usize)
    ensures
        msg_views(final(history)@) == compression_trim_spec(msg_views(old(history)@), split_index as int),
{
    if split_index <= 1 || history.len() <= split_index {
        return;
    }
    let ghost ov = msg_views(history@);
    let mut old: Vec<ChatMessage> = Vec::new();
    std::mem::swap(&mut old, history);
    let system = old.remove(0);
    let mut recent = old.split_off(split_index - 1);
    history.push(system);
    history.append(&mut recent);
    assert(msg_views(history@) =~= seq![ov[0]] + ov.skip(split_index as int));
}

// ---------------------------------------------------------------- transcript

pub open spec fn role_name(r: Role) -> Seq<char> {
    match r {
        Role::System => "system"@,
        Role::User => "user"@,
        Role::Assistant => "assistant"@,
        Role::Tool => "tool"@,
    }
}

pub open spec fn calls_transcript(calls: Seq<ToolCallView>) -> Seq<char>
    decreases calls.len(),
{
    if calls.len() == 0 {
        seq![]
    } else {
        calls_transcript(calls.drop_last()) + "assistant tool "@ + calls.last().name + "("@
            + calls.last().arguments + "): id="@ + calls.last().id + "\n"@
    }
}

pub open spec fn msg_transcript(m: MessageView) -> Seq<char> {
    (if m.content.len() > 0 {
        role_name(m.role) + ": "@ + m.content + "\n"@
    } else {
        seq![]
    }) + match m.tool_calls {
        Some(c) => calls_transcript(c),
        None => seq![],
    }
}

/// The excerpt given to the summarizer: one line per message and tool call.
pub open spec fn transcript_spec(ms: Seq<MessageView>) -> Seq<char>
    decreases ms.len(),
{
    if ms.len() == 0 {
        seq![]
    } else {
        transcript_spec(ms.drop_last()) + msg_transcript(ms.last())
    }
}

fn role_str(r: Role) -> (s: &'static str)
    ensures
        s@ == role_name(r),
{
    match r {
        Role::System => "system",
        Role::User => "user",
        Role::Assistant => "assistant",
        Role::Tool => "tool",
    }
}

fn format_transcript(messages: &[ChatMessage]) -> (r: String)
    ensures
        r@ == transcript_spec(msg_views(messages@)),
{
    let ghost mv = msg_views(messages@);
    let mut out: Vec<char> = Vec::new();
    let mut i: usize = 0;
    assert(mv.take(0) =~= Seq::<MessageView>::empty());
    while i < messages.len()
        invariant
            i <= messages@.len(),
            mv == msg_views(messages@),
            out@ == transcript_spec(mv.take(i as int)),
        decreases messages@.len() - i,
    {
        let m = &messages[i];
        let ghost before = out@;
        if m.content.as_str().unicode_len() > 0 {
            push_str(&mut out, role_str(m.role));
            push_str(&mut out, ": ");
            push_str(&mut out, m.content.as_str());
            push_str(&mut out, "\n");
        }
        let ghost mid = out@;
        assert(mid == before + (if m@.content.len() > 0 {
            role_name(m@.role) + ": "@ + m@.content + "\n"@
        } else {
            seq![]
        }));
        match &m.tool_calls {
            Some(calls) => {
                let ghost cv = call_views(calls@);
                let mut j: usize = 0;
                assert(cv.take(0) =~= Seq::<ToolCallView>::empty());
                while j < calls.len()
                    invariant
                        j <= calls@.len(),
                        cv == call_views(calls@),
                        out@ == mid + calls_transcript(cv.take(j as int)),
                    decreases calls@.len() - j,
                {
                    let c = &calls[j];
                    push_str(&mut out, "assistant tool ");
                    push_str(&mut out, c.name.as_str());
                    push_str(&mut out, "(");
                    push_str(&mut out, c.arguments.as_str());
                    push_str(&mut out, "): id=");
                    push_str(&mut out, c.id.as_str());
                    push_str(&mut out, "\n");
                    proof {
                        let p = cv.take(j + 1);
                        assert(p.drop_last() =~= cv.take(j as int));
                        assert(p.last() == c@);
                    }
                    j += 1;
                }
                assert(cv.take(calls@.len() as int) =~= cv);
            },
            None => {},
        }
        proof {
            let p = mv.take(i + 1);
            assert(p.drop_last() =~= mv.take(i as int));
            assert(p.last() == m@);
            assert(out@ =~= before + msg_transcript(m@));
        }
        i += 1;
    }
    assert(mv.take(messages@.len() as int) =~= mv);
    to_string(&out)
}

} // verus!

verus! {

// ---------------------------------------------------------------- emergency trim

/// Planned compression: where recent turns begin, the summary, and the
/// estimate and count of the summarized messages.
#[derive(Debug, Clone, PartialEq, Eq)]
pub struct CompressionOutcome {
    pub split_index: usize,
    pub summary: String,
    pub token_estimate: u32,
    pub message_count: u32,
}

/// A mechanical trim made while summarization cannot run yet.
#[derive(Debug, Clone, PartialEq, Eq, Structural)]
pub struct EmergencyTrimOutcome {
    pub messages_trimmed: u32,
    pub tokens_before: usize,
    pub tokens_after: usize,
}

/// Index of the first occurrence of `p` in `s` from `i`, else the length.
pub open spec fn first_occurrence(s: Seq<char>, p: Seq<char>, i: int) -> int
    decreases s.len() - i,
{
    if i < 0 || i >= s.len() || i + p.len() > s.len() {
        s.len() as int
    } else if occurs_at(s, p, i) {
        i
    } else {
        first_occurrence(s, p, i + 1)
    }
}

/// Characters before the truncation marker (all of them when there is none).
pub open spec fn base_len(c: Seq<char>) -> int {
    first_occurrence(c, TRUNC_SUFFIX@, 0)
}

proof fn lemma_first_occurrence_bounds(s: Seq<char>, p: Seq<char>, i: int)
    requires
        0 <= i,
    ensures
        first_occurrence(s, p, i) <= s.len(),
        i <= s.len() ==> i <= first_occurrence(s, p, i),
    decreases s.len() - i,
{
    if !(i >= s.len() || i + p.len() > s.len()) && !occurs_at(s, p, i) {
        lemma_first_occurrence_bounds(s, p, i + 1);
    }
}

fn base_content_len(content: &String) -> (n: usize)
    ensures
        n == base_len(content@),
        n <= content@.len(),
{
    let c = string_chars(content);
    let p = chars_of(TRUNC_SUFFIX);
    let mut i: usize = 0;
    proof {
        lemma_first_occurrence_bounds(c@, p@, 0);
    }
    while i < c.len() && p.len() <= c.len() - i && !matches_at(&c, &p, i)
        invariant
            i <= c.len(),
            c@ == content@,
            p@ == TRUNC_SUFFIX@,
            first_occurrence(c@, p@, i as int) == first_occurrence(c@, p@, 0),
        decreases c.len() - i,
    {
        i += 1;
    }
    if i < c.len() && p.len() <= c.len() - i {
        i
    } else {
        c.len()
    }
}

/// The marker holds a line break only at its start.
proof fn lemma_marker_shape()
    ensures
        TRUNC_SUFFIX@.len() == 45,
        TRUNC_SUFFIX@[0] == '\n',
        forall|j: int| 1 <= j < TRUNC_SUFFIX@.len() ==> TRUNC_SUFFIX@[j] != '\n',
{
    reveal_strlit("\n...[content truncated to fit context budget]");
    assert(TRUNC_SUFFIX@ =~= seq![
        '\n', '.', '.', '.', '[', 'c', 'o', 'n', 't', 'e', 'n', 't', ' ', 't', 'r', 'u', 'n', 'c', 'a',
        't', 'e', 'd', ' ', 't', 'o', ' ', 'f', 'i', 't', ' ', 'c', 'o', 'n', 't', 'e', 'x', 't', ' ',
        'b', 'u', 'd', 'g', 'e', 't', ']',
    ]);
}

/// No occurrence of `p` lies between `i` and the first one found from `i`.
proof fn lemma_before_first_occurrence(s: Seq<char>, p: Seq<char>, i: int, k: int)
    requires
        0 <= i <= k < first_occurrence(s, p, i),
    ensures
        !occurs_at(s, p, k),
    decreases s.len() - i,
{
    if i >= s.len() || i + p.len() > s.len() {
    } else if occurs_at(s, p, i) {
    } else if k > i {
        lemma_before_first_occurrence(s, p, i + 1, k);
    }
}

/// With no occurrence from `i` up to `j`, the search from `i` finds what the search from `j` finds.
proof fn lemma_first_occurrence_skip(s: Seq<char>, p: Seq<char>, i: int, j: int)
    requires
        0 <= i <= j,
        j + p.len() <= s.len(),
        forall|k: int| i <= k < j ==> !occurs_at(s, p, k),
    ensures
        first_occurrence(s, p, i) == first_occurrence(s, p, j),
    decreases j - i,
{
    if i < j {
        lemma_first_occurrence_skip(s, p, i + 1, j);
    }
}

/// Cutting a message below the length before its marker leaves exactly the
/// kept characters before the (new) marker.
pub proof fn lemma_base_len_truncated(c: Seq<char>, nl: int)
    requires
        0 <= nl < base_len(c),
    ensures
        base_len(c.take(nl) + TRUNC_SUFFIX@) == nl,
{
    let sfx = TRUNC_SUFFIX@;
    let t = c.take(nl) + sfx;
    lemma_marker_shape();
    lemma_first_occurrence_bounds(c, sfx, 0);
    assert forall|k: int| 0 <= k < nl implies !occurs_at(t, sfx, k) by {
        if k + sfx.len() <= nl {
            lemma_before_first_occurrence(c, sfx, 0, k);
            assert(t.subrange(k, k + sfx.len()) =~= c.subrange(k, k + sfx.len()));
        } else if occurs_at(t, sfx, k) {
            let d = nl - k;
            assert(t.subrange(k, k + sfx.len())[d] == t[nl]);
            assert(t[nl] == sfx[0]);
            assert(sfx[d] == '\n');
        }
    }
    assert(t.subrange(nl, nl + sfx.len()) =~= sfx);
    lemma_first_occurrence_skip(t, sfx, 0, nl);
}

/// The text kept when a message is cut to `keep` characters.
pub open spec fn truncated(m: MessageView, keep: int) -> MessageView {
    MessageView {
        role: m.role,
        content: m.content.take(keep) + TRUNC_SUFFIX@,
        tool_calls: m.tool_calls,
        tool_call_id: m.tool_call_id,
        reasoning_content: m.reasoning_content,
    }
}

pub open spec fn new_keep(b: int, min_keep: int) -> int {
    if b * 2 / 3 >= min_keep {
        b * 2 / 3
    } else {
        min_keep
    }
}

/// The longest message (after the first) that can still be cut, with the
/// length to cut it to: two thirds of its text, not below `min_keep`.
pub open spec fn best_go(h: Seq<MessageView>, min_keep: int, i: int, best: Option<(int, int)>) -> Option<(int, int)>
    decreases h.len() - i,
{
    if i < 0 || i >= h.len() {
        best
    } else {
        let b = base_len(h[i].content);
        let nl = new_keep(b, min_keep);
        if h[i].role == Role::System || b <= min_keep || nl >= b {
            best_go(h, min_keep, i + 1, best)
        } else if match best {
            Some((bi, _)) => b > base_len(h[bi].content),
            None => true,
        } {
            best_go(h, min_keep, i + 1, Some((i, nl)))
        } else {
            best_go(h, min_keep, i + 1, best)
        }
    }
}

/// `x` capped at `usize::MAX`.
pub open spec fn cap_usize(x: int) -> int {
    if x > usize::MAX {
        usize::MAX as int
    } else {
        x
    }
}

/// The token estimate with the character count capped at `usize::MAX`
/// (the estimate itself whenever the count fits).
pub open spec fn sat_estimate_spec(ms: Seq<MessageView>) -> int {
    ceil4(cap_usize(total_weight(ms)))
}

/// Characters before the marker, summed over the messages; every cut lowers it.
pub open spec fn base_total(h: Seq<MessageView>) -> nat
    decreases h.len(),
{
    if h.len() == 0 {
        0
    } else {
        base_total(h.drop_last()) + (base_len(h.last().content) as nat)
    }
}

proof fn lemma_base_len_bounds(c: Seq<char>)
    ensures
        0 <= base_len(c) <= c.len(),
{
    lemma_first_occurrence_bounds(c, TRUNC_SUFFIX@, 0);
}

pub proof fn lemma_base_total_update(h: Seq<MessageView>, i: int, x: MessageView)
    requires
        0 <= i < h.len(),
    ensures
        base_total(h.update(i, x)) == base_total(h) - (base_len(h[i].content) as nat) + (base_len(
            x.content,
        ) as nat),
    decreases h.len(),
{
    if i < h.len() - 1 {
        lemma_base_total_update(h.drop_last(), i, x);
        assert(h.update(i, x).drop_last() =~= h.drop_last().update(i, x));
    } else {
        assert(h.update(i, x).drop_last() =~= h.drop_last());
    }
}

/// A message after the first that the trim may still cut: not a system
/// message, and longer before its marker than the floor.
pub open spec fn cuttable(m: MessageView, min_keep: int) -> bool {
    let b = base_len(m.content);
    m.role != Role::System && b > min_keep && new_keep(b, min_keep) < b
}

/// Cutting rounds until the (capped) estimate is at or under the threshold or
/// no message can be cut; also counts the cuts.
pub open spec fn trim_go(h: Seq<MessageView>, threshold: int, min_keep: int, count: nat) -> (Seq<MessageView>, nat)
    decreases base_total(h),
{
    if sat_estimate_spec(h) <= threshold {
        (h, count)
    } else {
        match best_go(h, min_keep, 1, None) {
            None => (h, count),
            Some((idx, nl)) => if !(0 <= idx < h.len()) || nl < 0 || base_len(h[idx].content) <= nl {
                (h, count)
            } else {
                proof {
                    lemma_base_total_update(h, idx, truncated(h[idx], nl));
                    lemma_base_len_truncated(h[idx].content, nl);
                }
                trim_go(h.update(idx, truncated(h[idx], nl)), threshold, min_keep, count + 1)
            },
        }
    }
}

pub open spec fn min_keep_of(config: ContextConfig) -> int {
    if config.trim_keep_chars >= 256 {
        config.trim_keep_chars as int
    } else {
        256
    }
}

/// The result of an emergency trim: `None` when disabled, under budget, or
/// nothing could be cut.
pub open spec fn emergency_spec(h: Seq<MessageView>, config: ContextConfig) -> (Seq<MessageView>, Option<EmergencyTrimOutcome>) {
    let threshold = k_tokens(config.compress_at_k);
    if !config.enabled || sat_estimate_spec(h) <= threshold {
        (h, None)
    } else {
        let (h2, c) = trim_go(h, threshold, min_keep_of(config), 0);
        if c == 0 {
            (h2, None)
        } else {
            (
                h2,
                Some(
                    EmergencyTrimOutcome {
                        messages_trimmed: cap_u32(c as int),
                        tokens_before: sat_estimate_spec(h) as usize,
                        tokens_after: sat_estimate_spec(h2) as usize,
                    },
                ),
            )
        }
    }
}

/// What the search for the message to cut finds is a cuttable message after
/// the first, with two thirds of its text (not below the floor) to keep;
/// finding none means no message after the first can be cut.
proof fn lemma_best_go(h: Seq<MessageView>, min_keep: int, i: int, best: Option<(int, int)>)
    requires
        1 <= i,
        best matches Some((bi, bn)) ==> 1 <= bi < h.len() && cuttable(h[bi], min_keep) && bn == new_keep(
            base_len(h[bi].content),
            min_keep,
        ),
    ensures
        best_go(h, min_keep, i, best) matches Some((bi, bn)) ==> 1 <= bi < h.len() && cuttable(h[bi], min_keep)
            && bn == new_keep(base_len(h[bi].content), min_keep),
        best is Some ==> best_go(h, min_keep, i, best) is Some,
        best is None && best_go(h, min_keep, i, best) is None ==> forall|j: int|
            i <= j < h.len() ==> !cuttable(#[trigger] h[j], min_keep),
    decreases h.len() - i,
{
    if i < h.len() {
        let b = base_len(h[i].content);
        let nl = new_keep(b, min_keep);
        if h[i].role == Role::System || b <= min_keep || nl >= b {
            lemma_best_go(h, min_keep, i + 1, best);
        } else if match best {
            Some((bi, _)) => b > base_len(h[bi].content),
            None => true,
        } {
            lemma_best_go(h, min_keep, i + 1, Some((i, nl)));
        } else {
            lemma_best_go(h, min_keep, i + 1, best);
        }
    }
}

/// With a floor of at least zero, a message can be cut exactly when it is not
/// a system message and is longer before its marker than the floor.
proof fn lemma_cuttable_iff(m: MessageView, min_keep: int)
    requires
        min_keep >= 0,
    ensures
        cuttable(m, min_keep) <==> (m.role != Role::System && base_len(m.content) > min_keep),
{
    lemma_base_len_bounds(m.content);
}

/// The trim keeps the number and roles of the messages and the first message,
/// and ends at or under the threshold or with nothing left to cut.
proof fn lemma_trim_go(h: Seq<MessageView>, threshold: int, min_keep: int, count: nat)
    ensures
        trim_go(h, threshold, min_keep, count).0.len() == h.len(),
        forall|j: int| 0 <= j < h.len() ==> (#[trigger] trim_go(h, threshold, min_keep, count).0[j]).role == h[j].role,
        h.len() > 0 ==> trim_go(h, threshold, min_keep, count).0[0] == h[0],
        trim_go(h, threshold, min_keep, count).1 >= count,
        trim_go(h, threshold, min_keep, count).1 == count ==> trim_go(h, threshold, min_keep, count).0 == h,
        sat_estimate_spec(trim_go(h, threshold, min_keep, count).0) <= threshold || forall|j: int|
            1 <= j < h.len() ==> !cuttable(#[trigger] trim_go(h, threshold, min_keep, count).0[j], min_keep),
    decreases base_total(h),
{
    if sat_estimate_spec(h) > threshold {
        lemma_best_go(h, min_keep, 1, None);
        match best_go(h, min_keep, 1, None) {
            None => {},
            Some((idx, nl)) => {
                lemma_base_len_bounds(h[idx].content);
                if !(0 <= idx < h.len()) || nl < 0 || base_len(h[idx].content) <= nl {
                } else {
                    let h2 = h.update(idx, truncated(h[idx], nl));
                    lemma_base_total_update(h, idx, truncated(h[idx], nl));
                    lemma_base_len_truncated(h[idx].content, nl);
                    lemma_trim_go(h2, threshold, min_keep, count + 1);
                    let r = trim_go(h2, threshold, min_keep, count + 1).0;
                    assert forall|j: int| 0 <= j < h.len() implies (#[trigger] r[j]).role == h[j].role by {
                        assert(h2[j].role == h[j].role);
                    }
                }
            },
        }
    }
}

proof fn lemma_total_weight_update(h: Seq<MessageView>, i: int, x: MessageView)
    requires
        0 <= i < h.len(),
    ensures
        total_weight(h.update(i, x)) == total_weight(h) - msg_weight(h[i]) + msg_weight(x),
    decreases h.len(),
{
    if i < h.len() - 1 {
        lemma_total_weight_update(h.drop_last(), i, x);
        assert(h.update(i, x).drop_last() =~= h.drop_last().update(i, x));
    } else {
        assert(h.update(i, x).drop_last() =~= h.drop_last());
    }
}

fn byte_len_saturating(s: &str) -> (n: usize)
    ensures
        n == cap_usize(bytes_of(s@)),
{
    let v = chars_of(s);
    let mut acc: usize = 0;
    let mut i: usize = 0;
    while i < v.len()
        invariant
            i <= v.len(),
            v@ == s@,
            acc == cap_usize(bytes_of(v@.take(i as int))),
        decreases v.len() - i,
    {
        assert(v@.take(i + 1).drop_last() =~= v@.take(i as int));
        proof {
            lemma_bytes_nonneg(v@.take(i as int));
        }
        acc = acc.saturating_add(utf8_len_of(v[i]));
        i += 1;
    }
    assert(v@.take(v.len() as int) =~= v@);
    acc
}

fn calls_weight_saturating(calls: &Vec<crate::llm::ToolCall>) -> (n: usize)
    ensures
        n == cap_usize(calls_weight(call_views(calls@))),
{
    let ghost cv = call_views(calls@);
    let mut acc: usize = 0;
    let mut i: usize = 0;
    while i < calls.len()
        invariant
            i <= calls@.len(),
            cv == call_views(calls@),
            acc == cap_usize(calls_weight(cv.take(i as int))),
        decreases calls@.len() - i,
    {
        proof {
            assert(cv.take(i + 1).drop_last() =~= cv.take(i as int));
            assert(cv.take(i + 1).last() == calls@[i as int]@);
            lemma_calls_weight_nonneg(cv.take(i as int));
            lemma_bytes_nonneg(calls@[i as int].name@);
            lemma_bytes_nonneg(calls@[i as int].arguments@);
            lemma_bytes_nonneg(calls@[i as int].id@);
        }
        let c = &calls[i];
        let a = byte_len_saturating(c.name.as_str());
        let b = byte_len_saturating(c.arguments.as_str());
        let d = byte_len_saturating(c.id.as_str());
        acc = acc.saturating_add(a).saturating_add(b).saturating_add(d);
        i += 1;
    }
    assert(cv.take(calls@.len() as int) =~= cv);
    acc
}

fn message_weight_saturating(m: &ChatMessage) -> (n: usize)
    ensures
        n == cap_usize(msg_weight(m@)),
{
    proof {
        if m@.tool_calls is Some {
            lemma_calls_weight_nonneg(m@.tool_calls->0);
        }
        if m@.tool_call_id is Some {
            lemma_bytes_nonneg(m@.tool_call_id->0);
        }
    }
    let mut n = m.content.as_str().unicode_len();
    match &m.reasoning_content {
        Some(r) => {
            n = n.saturating_add(r.as_str().unicode_len());
        },
        None => {},
    }
    match &m.tool_calls {
        Some(calls) => {
            n = n.saturating_add(calls_weight_saturating(calls));
        },
        None => {},
    }
    match &m.tool_call_id {
        Some(id) => {
            n = n.saturating_add(byte_len_saturating(id.as_str()));
        },
        None => {},
    }
    n
}

/// The token estimate, with the character count capped at `usize::MAX`
/// instead of overflowing.
fn estimate_tokens_saturating(messages: &[ChatMessage]) -> (r: usize)
    ensures
        r == sat_estimate_spec(msg_views(messages@)),
{
    let ghost mv = msg_views(messages@);
    let mut acc: usize = 0;
    let mut i: usize = 0;
    while i < messages.len()
        invariant
            i <= messages@.len(),
            mv == msg_views(messages@),
            acc == cap_usize(total_weight(mv.take(i as int))),
        decreases messages@.len() - i,
    {
        proof {
            assert(mv.take(i + 1).drop_last() =~= mv.take(i as int));
            assert(mv.take(i + 1).last() == messages@[i as int]@);
            lemma_total_weight_nonneg(mv.take(i as int));
            lemma_msg_weight_nonneg(messages@[i as int]@);
        }
        let w = message_weight_saturating(&messages[i]);
        acc = acc.saturating_add(w);
        i += 1;
    }
    assert(mv.take(messages@.len() as int) =~= mv);
    acc / 4 + if acc % 4 > 0 {
        1
    } else {
        0
    }
}

fn longest_truncatable_message(history: &Vec<ChatMessage>, min_keep: usize) -> (r: Option<(usize, usize)>)
    ensures
        match r {
            None => best_go(msg_views(history@), min_keep as int, 1, None) is None,
            Some((a, b)) => best_go(msg_views(history@), min_keep as int, 1, None) == Some((a as int, b as int)),
        },
        r matches Some((a, b)) ==> 1 <= a < history@.len() && b < base_len(history@[a as int].content@),
{
    let ghost hv = msg_views(history@);
    let mut best: Option<(usize, usize)> = None;
    let mut best_base: usize = 0;
    let mut i: usize = 1;
    while i < history.len()
        invariant
            1 <= i <= history@.len() || history@.len() == 0,
            hv == msg_views(history@),
            best_go(hv, min_keep as int, i as int, match best {
                None => None,
                Some((a, b)) => Some((a as int, b as int)),
            }) == best_go(hv, min_keep as int, 1, None),
            best matches Some((a, b)) ==> 1 <= a < i && best_base == base_len(hv[a as int].content) && b < best_base,
        decreases history@.len() - i,
    {
        let m = &history[i];
        assert(hv[i as int] == m@);
        if m.role != Role::System {
            let b = base_content_len(&m.content);
            if b > min_keep {
                let t = (b / 3) * 2 + ((b % 3) * 2) / 3;
                assert(t == b * 2 / 3) by (nonlinear_arith)
                    requires
                        t == (b / 3) * 2 + ((b % 3) * 2) / 3,
                ;
                let nl = if t >= min_keep {
                    t
                } else {
                    min_keep
                };
                if nl < b {
                    let better = match best {
                        None => true,
                        Some(_) => b > best_base,
                    };
                    if better {
                        best = Some((i, nl));
                        best_base = b;
                    }
                }
            }
        }
        i += 1;
    }
    best
}

fn truncate_message(m: ChatMessage, keep: usize) -> (r: ChatMessage)
    requires
        keep <= m.content@.len(),
    ensures
        r@ == truncated(m@, keep as int),
{
    let c = string_chars(&m.content);
    let mut kept: Vec<char> = Vec::new();
    let mut k: usize = 0;
    while k < keep
        invariant
            k <= keep <= c@.len(),
            kept@ == c@.take(k as int),
        decreases keep - k,
    {
        kept.push(c[k]);
        assert(c@.take(k + 1) =~= c@.take(k as int).push(c@[k as int]));
        k += 1;
    }
    push_str(&mut kept, TRUNC_SUFFIX);
    ChatMessage {
        role: m.role,
        content: to_string(&kept),
        tool_calls: m.tool_calls,
        tool_call_id: m.tool_call_id,
        reasoning_content: m.reasoning_content,
    }
}

/// Shrinks oversized messages until the estimate is at or under the budget or
/// no message after the first (system messages aside) can be cut any further.
#[verifier::rlimit(30)]
pub fn emergency_trim_history(history: &mut Vec<ChatMessage>, config: &ContextConfig) -> (r: Option<EmergencyTrimOutcome>)
    ensures
        msg_views(final(history)@) == emergency_spec(msg_views(old(history)@), *config).0,
        r == emergency_spec(msg_views(old(history)@), *config).1,
        final(history)@.len() == old(history)@.len(),
        forall|j: int| 0 <= j < old(history)@.len() ==> (#[trigger] final(history)@[j]).role == old(history)@[j].role,
        old(history)@.len() > 0 ==> final(history)@[0]@ == old(history)@[0]@,
        !(config.enabled && sat_estimate_spec(msg_views(old(history)@)) > k_tokens(config.compress_at_k)) ==> (
            msg_views(final(history)@) == msg_views(old(history)@) && r is None),
        config.enabled && sat_estimate_spec(msg_views(old(history)@)) > k_tokens(config.compress_at_k) ==> (
            sat_estimate_spec(msg_views(final(history)@)) <= k_tokens(config.compress_at_k) || forall|j: int|
            1 <= j < final(history)@.len() ==> (#[trigger] final(history)@[j]).role == Role::System || base_len(
            final(history)@[j].content@,
        ) <= min_keep_of(*config)),
        config.enabled && sat_estimate_spec(msg_views(old(history)@)) > k_tokens(config.compress_at_k)
            && total_weight(msg_views(final(history)@)) <= usize::MAX ==> (estimate_spec(
            msg_views(final(history)@),
        ) <= k_tokens(config.compress_at_k) || forall|j: int|
            1 <= j < final(history)@.len() ==> (#[trigger] final(history)@[j]).role == Role::System || base_len(
            final(history)@[j].content@,
        ) <= min_keep_of(*config)),
        r matches Some(o) ==> o.messages_trimmed > 0 && o.tokens_before == sat_estimate_spec(
            msg_views(old(history)@),
        ) && o.tokens_after == sat_estimate_spec(msg_views(final(history)@)),
{
    let ghost h0 = msg_views(history@);
    if !config.enabled {
        return None;
    }
    let threshold = compression_threshold_tokens(config);
    let before = estimate_tokens_saturating(history.as_slice());
    if before <= threshold {
        return None;
    }
    let min_keep = if config.trim_keep_chars >= 256 {
        config.trim_keep_chars
    } else {
        256
    };
    let mut count: u32 = 0;
    let ghost mut cuts: nat = 0;
    let mut done = false;
    while !done && estimate_tokens_saturating(history.as_slice()) > threshold
        invariant
            history@.len() == h0.len(),
            threshold == k_tokens(config.compress_at_k),
            min_keep == min_keep_of(*config),
            count == cap_u32(cuts as int),
            trim_go(msg_views(history@), threshold as int, min_keep as int, cuts) == trim_go(
                h0,
                threshold as int,
                min_keep as int,
                0,
            ),
            done ==> trim_go(msg_views(history@), threshold as int, min_keep as int, cuts) == (
                msg_views(history@),
                cuts,
            ),
        decreases base_total(msg_views(history@)), if done { 0int } else { 1int },
    {
        let ghost hv = msg_views(history@);
        let found = longest_truncatable_message(history, min_keep);
        match found {
            None => {
                done = true;
            },
            Some((idx, new_len)) => {
                let b = base_content_len(&history[idx].content);
                assert(hv[idx as int] == history@[idx as int]@);
                if b <= new_len {
                    done = true;
                } else {
                    let m = history.remove(idx);
                    let t = truncate_message(m, new_len);
                    proof {
                        lemma_base_total_update(hv, idx as int, truncated(hv[idx as int], new_len as int));
                        lemma_base_len_truncated(hv[idx as int].content, new_len as int);
                        lemma_base_len_bounds(hv[idx as int].content);
                    }
                    history.insert(idx, t);
                    assert(msg_views(history@) =~= hv.update(idx as int, truncated(hv[idx as int], new_len as int)));
                    count = count.saturating_add(1);
                    proof {
                        cuts = cuts + 1;
                    }
                }
            },
        }
    }
    proof {
        lemma_trim_go(h0, threshold as int, min_keep as int, 0);
        let h2 = trim_go(h0, threshold as int, min_keep as int, 0).0;
        assert(h2 == msg_views(history@));
        assert forall|j: int| 0 <= j < h0.len() implies (#[trigger] history@[j]).role == old(history)@[j].role by {
            assert(h2[j] == history@[j]@);
            assert(h0[j] == old(history)@[j]@);
        }
        if h0.len() > 0 {
            assert(h2[0] == history@[0]@);
            assert(h0[0] == old(history)@[0]@);
        }
        if sat_estimate_spec(h2) > threshold {
            assert forall|j: int| 1 <= j < history@.len() implies (#[trigger] history@[j]).role == Role::System
                || base_len(history@[j].content@) <= min_keep_of(*config) by {
                assert(h2[j] == history@[j]@);
                lemma_cuttable_iff(h2[j], min_keep as int);
            }
        }
    }
    let after = estimate_tokens_saturating(history.as_slice());
    if count == 0 {
        return None;
    }
    Some(EmergencyTrimOutcome { messages_trimmed: count, tokens_before: before, tokens_after: after })
}

pub open spec fn emergency_summary_spec(o: EmergencyTrimOutcome) -> Seq<char> {
    "紧急裁剪：截短 "@ + decimal_spec(o.messages_trimmed as nat) + " 条消息（约 "@ + decimal_spec(
        o.tokens_before as nat,
    ) + " → "@ + decimal_spec(o.tokens_after as nat) + " tokens）"@
}

pub fn emergency_trim_summary(outcome: &EmergencyTrimOutcome) -> (r: String)
    ensures
        r@ == emergency_summary_spec(*outcome),
{
    let mut out = chars_of("紧急裁剪：截短 ");
    push_all(&mut out, &decimal(outcome.messages_trimmed as u64));
    push_str(&mut out, " 条消息（约 ");
    push_all(&mut out, &decimal(outcome.tokens_before as u64));
    push_str(&mut out, " → ");
    push_all(&mut out, &decimal(outcome.tokens_after as u64));
    push_str(&mut out, " tokens）");
    to_string(&out)
}

} // verus!

verus! {

/// A compression worth asking the summarizer for: where recent turns begin,
/// the excerpt to summarize, the estimate of the whole history and how many
/// messages the excerpt covers.
pub struct CompressionPlan {
    pub split_index: usize,
    pub transcript: String,
    pub token_estimate: usize,
    pub middle_len: usize,
}

/// When a compression is worth planning, and what it covers.
pub open spec fn plan_spec(h: Seq<MessageView>, config: ContextConfig, force: bool) -> Option<(int, Seq<char>, int, int)> {
    let tokens = estimate_spec(h);
    let split = compression_split_spec(h, config);
    if !config.enabled || h.len() <= 2 {
        None
    } else if !force && tokens <= k_tokens(config.compress_at_k) {
        None
    } else if split <= 1 || split > h.len() {
        None
    } else {
        Some((split, transcript_spec(h.subrange(1, split)), tokens, split - 1))
    }
}

proof fn lemma_tail_go_bound(h: Seq<MessageView>, protect: int, i: int, tail: int)
    requires
        0 <= i < h.len(),
    ensures
        tail_go(h, protect, i, tail) <= h.len(),
    decreases i,
{
    if i >= 1 {
        lemma_tail_go_bound(h, protect, i - 1, tail + ceil4(msg_weight(h[i])));
    }
}

proof fn lemma_last_user_bound(h: Seq<MessageView>, i: int)
    requires
        i < h.len(),
    ensures
        1 <= last_user_go(h, i) <= if i >= 1 { i } else { 1 },
    decreases i,
{
    if i > 1 {
        lemma_last_user_bound(h, i - 1);
    }
}

/// The first half of compression: decide whether to summarize and what.
pub fn plan_compression(history: &[ChatMessage], config: &ContextConfig, force: bool) -> (r: Option<CompressionPlan>)
    requires
        total_weight(msg_views(history@)) <= usize::MAX,
    ensures
        match r {
            None => plan_spec(msg_views(history@), *config, force) is None,
            Some(p) => plan_spec(msg_views(history@), *config, force) == Some((
                p.split_index as int,
                p.transcript@,
                p.token_estimate as int,
                p.middle_len as int,
            )),
        },
{
    let ghost hv = msg_views(history@);
    if !config.enabled || history.len() <= 2 {
        return None;
    }
    let tokens = estimate_tokens(history);
    let threshold = compression_threshold_tokens(config);
    if !force && tokens <= threshold {
        return None;
    }
    let split = compression_split_index(history, config);
    proof {
        if hv.len() > 1 && k_tokens(config.protect_tail_k) != 0 {
            lemma_tail_go_bound(hv, k_tokens(config.protect_tail_k), hv.len() - 1, 0);
        }
        lemma_last_user_bound(hv, hv.len() - 1);
    }
    if split <= 1 {
        return None;
    }
    let middle = vstd::slice::slice_subrange(history, 1, split);
    assert(msg_views(middle@) =~= hv.subrange(1, split as int));
    let transcript = format_transcript(middle);
    Some(CompressionPlan { split_index: split, transcript, token_estimate: tokens, middle_len: split - 1 })
}

/// The request that asks the model for a summary of `transcript`.
pub fn summary_request(model: &str, transcript: String) -> (r: LlmRequest)
    ensures
        r.model@ == model@,
        r.messages@.len() == 2,
        r.messages@[0]@.role == Role::System,
        r.messages@[0]@.content == SUMMARY_SYSTEM@,
        r.messages@[1]@.role == Role::User,
        r.messages@[1]@.content == transcript@,
{
    let mut messages: Vec<ChatMessage> = Vec::new();
    messages.push(
        ChatMessage {
            role: Role::System,
            content: to_string(&chars_of(SUMMARY_SYSTEM)),
            tool_calls: None,
            tool_call_id: None,
            reasoning_content: None,
        },
    );
    messages.push(
        ChatMessage {
            role: Role::User,
            content: transcript,
            tool_calls: None,
            tool_call_id: None,
            reasoning_content: None,
        },
    );
    LlmRequest { model: to_string(&chars_of(model)), messages }
}

/// `x` capped at `u32::MAX`.
pub open spec fn cap_u32(x: int) -> u32 {
    if x > u32::MAX {
        u32::MAX
    } else {
        x as u32
    }
}

/// The second half of compression: the outcome, given the summary the model
/// wrote (none when it wrote nothing).
pub fn finish_compression(plan: CompressionPlan, summary: Option<String>) -> (r: Option<CompressionOutcome>)
    ensures
        match summary {
            None => r is None,
            Some(s) => if s@.len() == 0 {
                r is None
            } else {
                r matches Some(o) && o.split_index == plan.split_index && o.summary@ == s@
                    && o.token_estimate == cap_u32(plan.token_estimate as int)
                    && o.message_count == cap_u32(plan.middle_len as int)
            },
        },
{
    let s = match summary {
        Some(s) => s,
        None => {
            return None;
        },
    };
    if s.as_str().unicode_len() == 0 {
        return None;
    }
    let te: u32 = if plan.token_estimate > u32::MAX as usize {
        u32::MAX
    } else {
        plan.token_estimate as u32
    };
    let mc: u32 = if plan.middle_len > u32::MAX as usize {
        u32::MAX
    } else {
        plan.middle_len as u32
    };
    Some(CompressionOutcome { split_index: plan.split_index, summary: s, token_estimate: te, message_count: mc })
}

} // verus!
