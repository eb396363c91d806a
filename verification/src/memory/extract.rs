//! Deciding when a turn is worth remembering, and the excerpt given to the extractor.
use vstd::prelude::*;
use crate::llm::{msg_views, ChatMessage, LlmRequest, MessageView, Role};
use crate::memory::types::{
    kind_name, kind_parse_spec, task_status_parse_spec, KnotConfidence, KnotKind, TaskStatus,
};
use crate::text::{
    chars_of, contains, contains_spec, join_chars, join_spec, push_str, string_chars, to_string,
    trim, trim_spec, char_views, str_eq,
};

verus! {

/// What `str::to_lowercase` gives for a text (full Unicode case mapping).
pub uninterp spec fn unicode_lowercase(s: Seq<char>) -> Seq<char>;

/// `str::to_lowercase`; the result is named by `unicode_lowercase`.
#[verifier::external_body]
pub(crate) fn to_lowercase(s: &str) -> (r: String)
    ensures
        r@ == unicode_lowercase(s@),
{
    s.to_lowercase()
}

/// High-precision signals that a turn holds something to remember.
pub open spec fn memory_cues() -> Seq<Seq<char>> {
    seq![
        "记住"@, "记一下"@, "记下"@, "别忘"@, "提醒我"@, "以后"@, "下次"@, "默认用"@, "总是用"@,
        "我叫"@, "我的名字"@, "我喜欢"@, "我不喜欢"@, "我讨厌"@, "我的偏好"@, "我的习惯"@,
        "我的邮箱"@, "我的电话"@, "我的生日"@, "remember"@, "my name is"@, "i prefer"@, "i like "@,
        "i dislike"@, "i hate"@, "call me "@, "note that"@,
    ]
}

fn cue_list() -> (r: Vec<&'static str>)
    ensures
        r@.len() == memory_cues().len(),
        forall|i: int| 0 <= i < r@.len() ==> (#[trigger] r@[i])@ == memory_cues()[i],
{
    let r = vec![
        "记住", "记一下", "记下", "别忘", "提醒我", "以后", "下次", "默认用", "总是用", "我叫",
        "我的名字", "我喜欢", "我不喜欢", "我讨厌", "我的偏好", "我的习惯", "我的邮箱", "我的电话",
        "我的生日", "remember", "my name is", "i prefer", "i like ", "i dislike", "i hate",
        "call me ", "note that",
    ];
    assert forall|i: int| 0 <= i < r@.len() implies (#[trigger] r@[i])@ == memory_cues()[i] by {
        assert(r@[i]@ == memory_cues()[i]);
    }
    r
}

/// A user message with text whose lower-cased form contains some cue.
pub open spec fn has_cue(m: MessageView) -> bool {
    m.role == Role::User && m.content.len() > 0 && exists|j: int|
        0 <= j < memory_cues().len() && contains_spec(
            unicode_lowercase(m.content),
            #[trigger] memory_cues()[j],
        )
}

/// Whether a turn shows a signal worth long-term memory (user messages only).
pub fn turn_has_memory_cue(messages: &[ChatMessage]) -> (r: bool)
    ensures
        r == exists|i: int| 0 <= i < messages@.len() && has_cue(#[trigger] messages@[i]@),
{
    let cues = cue_list();
    let mut i: usize = 0;
    while i < messages.len()
        invariant
            i <= messages@.len(),
            cues@.len() == memory_cues().len(),
            forall|j: int| 0 <= j < cues@.len() ==> (#[trigger] cues@[j])@ == memory_cues()[j],
            forall|k: int| 0 <= k < i ==> !has_cue(#[trigger] messages@[k]@),
        decreases messages@.len() - i,
    {
        let m = &messages[i];
        if m.role == Role::User && m.content.as_str().unicode_len() > 0 {
            let lower = string_chars(&to_lowercase(m.content.as_str()));
            let mut j: usize = 0;
            while j < cues.len()
                invariant
                    j <= cues@.len(),
                    cues@.len() == memory_cues().len(),
                    forall|q: int| 0 <= q < cues@.len() ==> (#[trigger] cues@[q])@ == memory_cues()[q],
                    i < messages@.len(),
                    lower@ == unicode_lowercase(messages@[i as int]@.content),
                    messages@[i as int].role == Role::User,
                    messages@[i as int]@.content.len() > 0,
                    forall|q: int| 0 <= q < j ==> !contains_spec(lower@, #[trigger] memory_cues()[q]),
                decreases cues@.len() - j,
            {
                let cv = chars_of(cues[j]);
                if contains(&lower, &cv) {
                    assert(cues@[j as int]@ == memory_cues()[j as int]);
                    assert(contains_spec(unicode_lowercase(messages@[i as int]@.content), memory_cues()[j as int]));
                    assert(has_cue(messages@[i as int]@));
                    return true;
                }
                j += 1;
            }
        }
        i += 1;
    }
    false
}

pub open spec fn excerpt_role(r: Role) -> Seq<char> {
    match r {
        Role::User => "user"@,
        Role::Assistant => "assistant"@,
        Role::Tool => "tool"@,
        Role::System => "system"@,
    }
}

/// One line per non-system message with text.
pub open spec fn excerpt_go(ms: Seq<MessageView>) -> Seq<char>
    decreases ms.len(),
{
    if ms.len() == 0 {
        seq![]
    } else {
        let m = ms.last();
        excerpt_go(ms.drop_last()) + if m.role != Role::System && m.content.len() > 0 {
            excerpt_role(m.role) + ": "@ + m.content + "\n"@
        } else {
            seq![]
        }
    }
}

/// The extraction excerpt: `role: text` lines without system messages, trimmed.
pub open spec fn excerpt_spec(ms: Seq<MessageView>) -> Seq<char> {
    trim_spec(excerpt_go(ms))
}

pub fn format_excerpt(messages: &[ChatMessage]) -> (r: String)
    ensures
        r@ == excerpt_spec(msg_views(messages@)),
{
    let ghost mv = msg_views(messages@);
    let mut out: Vec<char> = Vec::new();
    let mut i: usize = 0;
    assert(mv.take(0) =~= Seq::<MessageView>::empty());
    while i < messages.len()
        invariant
            i <= messages@.len(),
            mv == msg_views(messages@),
            out@ == excerpt_go(mv.take(i as int)),
        decreases messages@.len() - i,
    {
        let m = &messages[i];
        proof {
            let p = mv.take(i + 1);
            assert(p.drop_last() =~= mv.take(i as int));
            assert(p.last() == m@);
        }
        if m.role != Role::System && m.content.as_str().unicode_len() > 0 {
            let role = match m.role {
                Role::User => "user",
                Role::Assistant => "assistant",
                Role::Tool => "tool",
                Role::System => "system",
            };
            push_str(&mut out, role);
            push_str(&mut out, ": ");
            push_str(&mut out, m.content.as_str());
            push_str(&mut out, "\n");
        } else {
            assert(out@ =~= out@ + Seq::<char>::empty());
        }
        i += 1;
    }
    assert(mv.take(messages@.len() as int) =~= mv);
    to_string(&trim(&out))
}

/// One knot candidate from the extractor's structured output.
#[derive(Debug, Clone)]
pub struct ExtractedKnot {
    pub kind: KnotKind,
    pub content: String,
    pub confidence: KnotConfidence,
    pub task_status: Option<TaskStatus>,
    pub supersedes_content_hash: Option<String>,
}

#[derive(Debug, Clone)]
pub struct ExtractOutcome {
    pub extracted: Vec<ExtractedKnot>,
}

/// The body of a fenced reply (```` ```json … ``` ```` or ```` ``` … ``` ````), if it is fenced.
pub open spec fn fence_body(t: Seq<char>) -> Option<Seq<char>> {
    if crate::text::starts_with_spec(t, "```json"@) && crate::text::ends_with_spec(t.skip(7), "```"@) {
        Some(t.skip(7).subrange(0, t.len() - 10))
    } else if crate::text::starts_with_spec(t, "```"@) && crate::text::ends_with_spec(t.skip(3), "```"@) {
        Some(t.skip(3).subrange(0, t.len() - 6))
    } else {
        None
    }
}

/// The JSON an extractor reply carries: the trimmed reply, or the trimmed body
/// of its code fence.
pub open spec fn extract_json_spec(raw: Seq<char>) -> Seq<char> {
    let t = trim_spec(raw);
    match fence_body(t) {
        Some(b) => trim_spec(b),
        None => t,
    }
}

/// The JSON to parse from an extractor reply; `None` when it is empty or `[]`
/// (no knots).
pub fn extract_json_text(raw: &str) -> (r: Option<String>)
    ensures
        r is None <==> (extract_json_spec(raw@).len() == 0 || extract_json_spec(raw@) == "[]"@),
        r matches Some(j) ==> j@ == extract_json_spec(raw@),
{
    proof {
        reveal_strlit("```json");
        reveal_strlit("```");
    }
    let t = trim(&chars_of(raw));
    let json_fence = chars_of("```json");
    let fence = chars_of("```");
    let body: Vec<char> = if crate::text::starts_with(&t, &json_fence)
        && crate::text::ends_with(&crate::text::slice_chars(&t, 7, t.len()), &fence) {
        let inner = crate::text::slice_chars(&t, 7, t.len() - 3);
        assert(inner@ =~= t@.skip(7).subrange(0, t@.len() - 10));
        trim(&inner)
    } else if crate::text::starts_with(&t, &fence)
        && crate::text::ends_with(&crate::text::slice_chars(&t, 3, t.len()), &fence) {
        let inner = crate::text::slice_chars(&t, 3, t.len() - 3);
        assert(inner@ =~= t@.skip(3).subrange(0, t@.len() - 6));
        trim(&inner)
    } else {
        t
    };
    proof {
        assert(t@.skip(7) =~= t@.subrange(7, t@.len() as int));
        assert(t@.skip(3) =~= t@.subrange(3, t@.len() as int));
    }
    if body.len() == 0 || crate::text::eq_str(&body, "[]") {
        None
    } else {
        Some(to_string(&body))
    }
}

// ---------------------------------------------------------------- the extractor call

/// The extractor's instructions.
pub const EXTRACT_SYSTEM: &'static str = "You extract long-term memory knots from conversation excerpts. Reply with a JSON array only (no markdown). Each item: {\"kind\":\"preference|fact|decision|task|procedure\", \"content\":\"...\", \"confidence\":\"confirmed|inferred|dream\", \"task_status\":\"open|done|cancelled\" (tasks only), \"supersedes_content_hash\":\"...\" (optional, when replacing an existing knot)}. Rules: output only NEW or UPDATED knots; skip unchanged existing items; use confirmed when the user explicitly asks to remember; dream only for weak signals; content in the same language as the excerpt; be concise.";

/// How many existing knots the extractor is shown.
pub const MAX_EXISTING_KNOTS: usize = 50;

/// An existing knot as the extractor is shown it.
#[derive(Debug, Clone)]
pub struct KnotDigest {
    pub kind: KnotKind,
    pub content: String,
    pub content_hash: String,
}

/// `- [kind] content (hash=…)`.
pub open spec fn digest_line(k: KnotDigest) -> Seq<char> {
    "- ["@ + kind_name(k.kind) + "] "@ + k.content@ + " (hash="@ + k.content_hash@ + ")"@
}

/// The lines of the first `max` knots.
pub open spec fn digest_lines(ks: Seq<KnotDigest>, max: int) -> Seq<Seq<char>> {
    let n = if ks.len() < max { ks.len() as int } else { max };
    Seq::new(n as nat, |i: int| digest_line(ks[i]))
}

/// The existing-knots block: one line per knot, at most `max` lines.
pub fn format_existing_knots(knots: &Vec<KnotDigest>, max: usize) -> (r: String)
    ensures
        r@ == join_spec(digest_lines(knots@, max as int), "\n"@),
{
    let n = if knots.len() < max { knots.len() } else { max };
    let mut lines: Vec<Vec<char>> = Vec::new();
    let mut i: usize = 0;
    while i < n
        invariant
            i <= n,
            n <= knots@.len(),
            n == (if knots@.len() < max { knots@.len() as int } else { max as int }),
            char_views(lines@) == digest_lines(knots@, max as int).take(i as int),
        decreases n - i,
    {
        let k = &knots[i];
        let mut line: Vec<char> = Vec::new();
        push_str(&mut line, "- [");
        push_str(&mut line, k.kind.as_str());
        push_str(&mut line, "] ");
        push_str(&mut line, k.content.as_str());
        push_str(&mut line, " (hash=");
        push_str(&mut line, k.content_hash.as_str());
        push_str(&mut line, ")");
        proof {
            assert(line@ =~= digest_line(knots@[i as int]));
            crate::approval::shell_cmd::lemma_char_views_push(lines@, line);
            assert(digest_lines(knots@, max as int).take(i + 1) =~= digest_lines(knots@, max as int).take(
                i as int,
            ).push(line@));
        }
        lines.push(line);
        i += 1;
    }
    assert(digest_lines(knots@, max as int).take(n as int) =~= digest_lines(knots@, max as int));
    to_string(&join_chars(&lines, &chars_of("\n")))
}

/// The user prompt: the existing knots (or `(none)`), then the excerpt.
pub open spec fn extract_prompt_spec(existing_block: Seq<char>, excerpt: Seq<char>) -> Seq<char> {
    if existing_block.len() == 0 {
        "Existing knots: (none)\n\nExcerpt:\n"@ + excerpt
    } else {
        "Existing knots:\n"@ + existing_block + "\n\nExcerpt:\n"@ + excerpt
    }
}

/// The request asking the model for knots in `messages`, showing it the first
/// existing knots; `None` when the excerpt is empty (nothing to ask).
pub fn extract_request(model: &str, messages: &[ChatMessage], existing: &Vec<KnotDigest>) -> (r: Option<LlmRequest>)
    ensures
        r is None <==> excerpt_spec(msg_views(messages@)).len() == 0,
        r matches Some(q) ==> {
            &&& q.model@ == model@
            &&& q.messages@.len() == 2
            &&& q.messages@[0]@ == (MessageView {
                role: Role::System,
                content: EXTRACT_SYSTEM@,
                tool_calls: None,
                tool_call_id: None,
                reasoning_content: None,
            })
            &&& q.messages@[1]@ == (MessageView {
                role: Role::User,
                content: extract_prompt_spec(
                    join_spec(digest_lines(existing@, MAX_EXISTING_KNOTS as int), "\n"@),
                    excerpt_spec(msg_views(messages@)),
                ),
                tool_calls: None,
                tool_call_id: None,
                reasoning_content: None,
            })
        },
{
    let excerpt = format_excerpt(messages);
    if excerpt.as_str().unicode_len() == 0 {
        return None;
    }
    let block = format_existing_knots(existing, MAX_EXISTING_KNOTS);
    let mut prompt: Vec<char> = Vec::new();
    if block.as_str().unicode_len() == 0 {
        push_str(&mut prompt, "Existing knots: (none)\n\nExcerpt:\n");
    } else {
        push_str(&mut prompt, "Existing knots:\n");
        push_str(&mut prompt, block.as_str());
        push_str(&mut prompt, "\n\nExcerpt:\n");
    }
    push_str(&mut prompt, excerpt.as_str());
    let mut messages_out: Vec<ChatMessage> = Vec::new();
    messages_out.push(
        ChatMessage {
            role: Role::System,
            content: to_string(&chars_of(EXTRACT_SYSTEM)),
            tool_calls: None,
            tool_call_id: None,
            reasoning_content: None,
        },
    );
    messages_out.push(
        ChatMessage {
            role: Role::User,
            content: to_string(&prompt),
            tool_calls: None,
            tool_call_id: None,
            reasoning_content: None,
        },
    );
    Some(LlmRequest { model: to_string(&chars_of(model)), messages: messages_out })
}

/// A confidence by its exact name.
pub open spec fn confidence_parse_spec(s: Seq<char>) -> Option<KnotConfidence> {
    if s == "confirmed"@ {
        Some(KnotConfidence::Confirmed)
    } else if s == "inferred"@ {
        Some(KnotConfidence::Inferred)
    } else if s == "dream"@ {
        Some(KnotConfidence::Dream)
    } else {
        None
    }
}

/// `` unknown variant `v` ``.
pub open spec fn unknown_variant(v: Seq<char>) -> Seq<char> {
    "unknown variant `"@ + v + "`"@
}

fn unknown_variant_text(v: &str) -> (r: String)
    ensures
        r@ == unknown_variant(v@),
{
    let mut t: Vec<char> = Vec::new();
    push_str(&mut t, "unknown variant `");
    push_str(&mut t, v);
    push_str(&mut t, "`");
    to_string(&t)
}

/// The knot one item of an extractor reply describes, from its fields; the
/// first field (kind, confidence, task status) that names no variant is the error.
pub fn extracted_knot_from(
    kind: &str,
    content: String,
    confidence: &str,
    task_status: Option<&str>,
    supersedes_content_hash: Option<String>,
) -> (r: Result<ExtractedKnot, String>)
    ensures
        kind_parse_spec(kind@) is None ==> (r matches Err(e) && e@ == unknown_variant(kind@)),
        kind_parse_spec(kind@) is Some && confidence_parse_spec(confidence@) is None ==> (r matches Err(e)
            && e@ == unknown_variant(confidence@)),
        kind_parse_spec(kind@) is Some && confidence_parse_spec(confidence@) is Some
            && (task_status matches Some(t) && task_status_parse_spec(t@) is None) ==> (r matches Err(e)
            && e@ == unknown_variant(task_status->0@)),
        r matches Ok(k) ==> {
            &&& Some(k.kind) == kind_parse_spec(kind@)
            &&& k.content == content
            &&& Some(k.confidence) == confidence_parse_spec(confidence@)
            &&& k.task_status == match task_status {
                None => None,
                Some(t) => task_status_parse_spec(t@),
            }
            &&& k.supersedes_content_hash == supersedes_content_hash
        },
        r is Ok <==> (kind_parse_spec(kind@) is Some && confidence_parse_spec(confidence@) is Some
            && !(task_status matches Some(t) && task_status_parse_spec(t@) is None)),
{
    let k = match KnotKind::parse(kind) {
        Some(k) => k,
        None => return Err(unknown_variant_text(kind)),
    };
    let c = if str_eq(confidence, "confirmed") {
        KnotConfidence::Confirmed
    } else if str_eq(confidence, "inferred") {
        KnotConfidence::Inferred
    } else if str_eq(confidence, "dream") {
        KnotConfidence::Dream
    } else {
        return Err(unknown_variant_text(confidence));
    };
    let t = match task_status {
        None => None,
        Some(v) => {
            let parsed = TaskStatus::from_db_opt(Some(v.to_string()));
            match parsed {
                Some(s) => Some(s),
                None => return Err(unknown_variant_text(v)),
            }
        },
    };
    Ok(ExtractedKnot { kind: k, content, confidence: c, task_status: t, supersedes_content_hash })
}

} // verus!
