//! The decisions of the agent loop: turn bookkeeping, what a model reply
//! does to the history, and the reply after the tool budget runs out. The
//! loop that calls the model and the tools runs these steps in order.
use vstd::prelude::*;
use crate::context::EmergencyTrimOutcome;
use crate::event::AgentEvent;
use crate::llm::{call_views, msg_views, ChatMessage, MessageView, Role, ToolCall, ToolCallView};
use crate::messages::catalog::message_spec;
use crate::messages::id::MessageId;
use crate::messages::locale::Locale;
use crate::messages::t;
use crate::text::{
    chars_of, clone_opt_str, clone_str, decimal, decimal_spec, opt_str_view, push_str, starts_with,
    starts_with_spec, str_eq, string_chars, to_string, trim, trim_spec, views,
};
use crate::tool_budget::{budget_summary_prefix, summary_nudge};

verus! {

/// The fixed part of the system prompt.
pub const DEFAULT_SYSTEM_PROMPT: &'static str = "You are hi, an ultra-lightweight personal AI assistant with file and shell tools. You were created by gz. Use tools when needed. Reply concisely in the user's language. Relative file paths resolve from the working directory. Paths outside workspace require one-time user approval per directory tree (stored in tools.approvals; mode=off to disable). Prefer read/write/edit tools over bash for file changes in the workspace.";

/// Store row ids aligned with the history when persistence is on.
pub struct MessageIds {
    pub ids: Vec<i64>,
}

impl MessageIds {
    pub fn empty() -> (r: Self)
        ensures
            r.ids@.len() == 0,
    {
        MessageIds { ids: Vec::new() }
    }

    pub fn extend(&mut self, new_ids: Vec<i64>)
        ensures
            final(self).ids@ == old(self).ids@ + new_ids@,
    {
        let mut n = new_ids;
        self.ids.append(&mut n);
    }

    /// Keeps the first id and those from `split_index` on (as the history is trimmed).
    pub fn trim_after_compression(&mut self, split_index: usize)
        ensures
            final(self).ids@ == ids_after_compression(old(self).ids@, split_index as int),
    {
        if split_index == 0 || self.ids.len() <= split_index {
            return;
        }
        let ghost o = self.ids@;
        let mut tail = self.ids.split_off(split_index);
        self.ids.truncate(1);
        self.ids.append(&mut tail);
        assert(self.ids@ =~= o.take(1) + o.skip(split_index as int));
    }
}

/// The reply shown without streaming: the answer, else the reasoning, else nothing.
pub open spec fn cli_reply_spec(content: Option<Seq<char>>, reasoning: Option<Seq<char>>) -> Seq<char> {
    if content is Some && content->0.len() > 0 {
        content->0
    } else if reasoning is Some && reasoning->0.len() > 0 {
        reasoning->0
    } else {
        seq![]
    }
}

pub fn cli_reply_text(content: Option<String>, reasoning: &Option<String>) -> (r: String)
    ensures
        r@ == cli_reply_spec(opt_str_view(content), opt_str_view(*reasoning)),
{
    match content {
        Some(c) => {
            if c.as_str().unicode_len() > 0 {
                return c;
            }
        },
        None => {},
    }
    match reasoning {
        Some(r) => {
            if r.as_str().unicode_len() > 0 {
                return clone_str(r);
            }
        },
        None => {},
    }
    proof {
        reveal_strlit("");
    }
    to_string(&chars_of(""))
}

pub open spec fn system_prompt_spec(workdir: Seq<char>, knot_block: Seq<char>) -> Seq<char> {
    DEFAULT_SYSTEM_PROMPT@ + "\nWorking directory: "@ + workdir + if knot_block.len() > 0 {
        "\n\n"@ + knot_block
    } else {
        seq![]
    }
}

/// The system prompt: the fixed text, the working directory, and the injected knots.
pub fn compose_system_prompt(workdir: &str, knot_block: &str) -> (r: String)
    ensures
        r@ == system_prompt_spec(workdir@, knot_block@),
{
    let mut c = chars_of(DEFAULT_SYSTEM_PROMPT);
    push_str(&mut c, "\nWorking directory: ");
    push_str(&mut c, workdir);
    if knot_block.unicode_len() > 0 {
        push_str(&mut c, "\n\n");
        push_str(&mut c, knot_block);
    }
    to_string(&c)
}

pub open spec fn system_message(content: Seq<char>) -> MessageView {
    MessageView { role: Role::System, content, tool_calls: None, tool_call_id: None, reasoning_content: None }
}

/// The history with `content` as its system message (replaced, or put first).
pub open spec fn with_system_line(h: Seq<MessageView>, content: Seq<char>) -> Seq<MessageView> {
    if h.len() == 0 {
        seq![system_message(content)]
    } else if h[0].role == Role::System {
        h.update(
            0,
            MessageView {
                role: h[0].role,
                content,
                tool_calls: h[0].tool_calls,
                tool_call_id: h[0].tool_call_id,
                reasoning_content: h[0].reasoning_content,
            },
        )
    } else {
        h.insert(0, system_message(content))
    }
}

fn plain_message(role: Role, content: String) -> (r: ChatMessage)
    ensures
        r@ == (MessageView { role, content: content@, tool_calls: None, tool_call_id: None, reasoning_content: None }),
{
    ChatMessage { role, content, tool_calls: None, tool_call_id: None, reasoning_content: None }
}

pub fn set_system_line(history: &mut Vec<ChatMessage>, content: String)
    ensures
        msg_views(final(history)@) == with_system_line(msg_views(old(history)@), content@),
{
    let ghost hv = msg_views(history@);
    if history.len() == 0 {
        history.push(plain_message(Role::System, content));
        assert(msg_views(history@) =~= seq![system_message(content@)]);
        return;
    }
    if history[0].role == Role::System {
        let first = history.remove(0);
        let m = ChatMessage {
            role: first.role,
            content,
            tool_calls: first.tool_calls,
            tool_call_id: first.tool_call_id,
            reasoning_content: first.reasoning_content,
        };
        history.insert(0, m);
        assert(msg_views(history@) =~= with_system_line(hv, content@));
    } else {
        let ghost cv = content@;
        history.insert(0, plain_message(Role::System, content));
        assert(msg_views(history@) =~= hv.insert(0, system_message(cv)));
    }
}

/// A turn is kept when none of its events is an error.
pub open spec fn should_commit_spec(events: Seq<AgentEvent>) -> bool {
    forall|i: int| 0 <= i < events.len() ==> !(#[trigger] events[i] is Error)
}

pub fn turn_should_commit(events: &[AgentEvent]) -> (r: bool)
    ensures
        r == should_commit_spec(events@),
{
    let mut i: usize = 0;
    while i < events.len()
        invariant
            i <= events@.len(),
            forall|k: int| 0 <= k < i ==> !(#[trigger] events@[k] is Error),
        decreases events@.len() - i,
    {
        match &events[i] {
            AgentEvent::Error { .. } => {
                return false;
            },
            _ => {},
        }
        i += 1;
    }
    true
}

/// The user message opens the turn, unless it is already the last message.
pub open spec fn begin_turn_spec(h: Seq<MessageView>, user: Seq<char>) -> Seq<MessageView> {
    if h.len() > 0 && h.last().role == Role::User && h.last().content == user {
        h
    } else {
        h.push(MessageView { role: Role::User, content: user, tool_calls: None, tool_call_id: None, reasoning_content: None })
    }
}

pub fn begin_turn(history: &mut Vec<ChatMessage>, user_message: &str)
    ensures
        msg_views(final(history)@) == begin_turn_spec(msg_views(old(history)@), user_message@),
{
    let ghost hv = msg_views(history@);
    let n = history.len();
    if n > 0 && history[n - 1].role == Role::User && str_eq(history[n - 1].content.as_str(), user_message) {
        assert(hv.last() == history@[n - 1]@);
        return;
    }
    proof {
        if n > 0 {
            assert(hv.last() == history@[n - 1]@);
        }
    }
    history.push(plain_message(Role::User, to_string(&chars_of(user_message))));
    assert(msg_views(history@) =~= begin_turn_spec(hv, user_message@));
}

} // verus!

verus! {

fn copy_call(c: &ToolCall) -> (r: ToolCall)
    ensures
        r@ == c@,
{
    ToolCall { id: clone_str(&c.id), name: clone_str(&c.name), arguments: clone_str(&c.arguments) }
}

fn copy_calls(v: &Vec<ToolCall>) -> (r: Vec<ToolCall>)
    ensures
        call_views(r@) == call_views(v@),
{
    let mut r: Vec<ToolCall> = Vec::new();
    let mut i: usize = 0;
    while i < v.len()
        invariant
            i <= v.len(),
            r@.len() == i,
            forall|k: int| 0 <= k < i ==> (#[trigger] r@[k])@ == v@[k]@,
        decreases v.len() - i,
    {
        r.push(copy_call(&v[i]));
        i += 1;
    }
    assert(call_views(r@) =~= call_views(v@));
    r
}

/// A copy of a message.
pub fn copy_message(m: &ChatMessage) -> (r: ChatMessage)
    ensures
        r@ == m@,
{
    ChatMessage {
        role: m.role,
        content: clone_str(&m.content),
        tool_calls: match &m.tool_calls {
            Some(c) => Some(copy_calls(c)),
            None => None,
        },
        tool_call_id: clone_opt_str(&m.tool_call_id),
        reasoning_content: clone_opt_str(&m.reasoning_content),
    }
}

/// What a model reply leaves to do: the events it produced, and the tool
/// calls to run (none when the reply ends the turn).
pub struct ReplyStep {
    pub events: Vec<AgentEvent>,
    pub calls: Vec<ToolCall>,
    pub done: bool,
}

/// The assistant message a reply without tool calls adds.
pub open spec fn final_reply_message(content: Option<Seq<char>>, reasoning: Option<Seq<char>>) -> MessageView {
    MessageView {
        role: Role::Assistant,
        content: cli_reply_spec(content, reasoning),
        tool_calls: None,
        tool_call_id: None,
        reasoning_content: reasoning,
    }
}

/// The assistant message a reply with tool calls adds.
pub open spec fn tool_reply_message(content: Option<Seq<char>>, calls: Seq<ToolCallView>, reasoning: Option<Seq<char>>) -> MessageView {
    MessageView {
        role: Role::Assistant,
        content: match content {
            Some(c) => c,
            None => seq![],
        },
        tool_calls: Some(calls),
        tool_call_id: None,
        reasoning_content: reasoning,
    }
}

/// Applies a model reply to the history. Without tool calls the reply ends
/// the turn: the answer is recorded (and shown unless it was streamed) and
/// the turn completes. With tool calls they are recorded and handed back.
pub fn apply_model_reply(
    history: &mut Vec<ChatMessage>,
    content: Option<String>,
    tool_calls: Vec<ToolCall>,
    reasoning: Option<String>,
    streamed: bool,
) -> (r: ReplyStep)
    ensures
        tool_calls@.len() == 0 ==> {
            let text = cli_reply_spec(opt_str_view(content), opt_str_view(reasoning));
            &&& r.done
            &&& r.calls@.len() == 0
            &&& msg_views(final(history)@) == msg_views(old(history)@).push(
                final_reply_message(opt_str_view(content), opt_str_view(reasoning)),
            )
            &&& if text.len() > 0 && !streamed {
                r.events@.len() == 2 && (r.events@[0] matches AgentEvent::AssistantDelta { text: x } && x@ == text)
                    && r.events@[1] is TurnCompleted
            } else {
                r.events@.len() == 1 && r.events@[0] is TurnCompleted
            }
        },
        tool_calls@.len() > 0 ==> {
            &&& !r.done
            &&& r.events@.len() == 0
            &&& call_views(r.calls@) == call_views(tool_calls@)
            &&& msg_views(final(history)@) == msg_views(old(history)@).push(
                tool_reply_message(opt_str_view(content), call_views(tool_calls@), opt_str_view(reasoning)),
            )
        },
{
    let ghost hv = msg_views(history@);
    let mut events: Vec<AgentEvent> = Vec::new();
    if tool_calls.len() == 0 {
        let ghost cv = opt_str_view(content);
        let text = cli_reply_text(content, &reasoning);
        let shown = clone_str(&text);
        let ghost tv = text@;
        history.push(
            ChatMessage {
                role: Role::Assistant,
                content: text,
                tool_calls: None,
                tool_call_id: None,
                reasoning_content: reasoning,
            },
        );
        assert(msg_views(history@) =~= hv.push(final_reply_message(cv, opt_str_view(reasoning))));
        if shown.as_str().unicode_len() > 0 && !streamed {
            events.push(AgentEvent::AssistantDelta { text: shown });
        }
        events.push(AgentEvent::TurnCompleted);
        return ReplyStep { events, calls: Vec::new(), done: true };
    }
    let calls = copy_calls(&tool_calls);
    let ghost cv = opt_str_view(content);
    let body = match content {
        Some(c) => c,
        None => {
            proof {
                reveal_strlit("");
            }
            to_string(&chars_of(""))
        },
    };
    assert(body@ == (match cv {
        Some(c) => c,
        None => Seq::<char>::empty(),
    }));
    let ghost rv = opt_str_view(reasoning);
    let ghost tv = call_views(tool_calls@);
    history.push(
        ChatMessage {
            role: Role::Assistant,
            content: body,
            tool_calls: Some(tool_calls),
            tool_call_id: None,
            reasoning_content: reasoning,
        },
    );
    assert(msg_views(history@) =~= hv.push(tool_reply_message(cv, tv, rv)));
    ReplyStep { events, calls, done: false }
}

/// The event that announces a tool call.
pub fn tool_started_event(call: &ToolCall) -> (r: AgentEvent)
    ensures
        r matches AgentEvent::ToolCallStarted { name, arguments } && name@ == call.name@
            && arguments@ == call.arguments@,
{
    AgentEvent::ToolCallStarted { name: clone_str(&call.name), arguments: clone_str(&call.arguments) }
}

/// Records a tool's result in the history and returns the event that reports it.
pub fn record_tool_result(history: &mut Vec<ChatMessage>, call: &ToolCall, success: bool, output: String) -> (r: AgentEvent)
    ensures
        r matches AgentEvent::ToolCallFinished { name, success: s, output: o } && name@ == call.name@
            && s == success && o@ == output@,
        msg_views(final(history)@) == msg_views(old(history)@).push(
            MessageView {
                role: Role::Tool,
                content: output@,
                tool_calls: None,
                tool_call_id: Some(call.id@),
                reasoning_content: None,
            },
        ),
{
    let ghost hv = msg_views(history@);
    let ghost ov = output@;
    let shown = clone_str(&output);
    history.push(
        ChatMessage {
            role: Role::Tool,
            content: output,
            tool_calls: None,
            tool_call_id: Some(clone_str(&call.id)),
            reasoning_content: None,
        },
    );
    assert(msg_views(history@) =~= hv.push(MessageView {
        role: Role::Tool,
        content: ov,
        tool_calls: None,
        tool_call_id: Some(call.id@),
        reasoning_content: None,
    }));
    AgentEvent::ToolCallFinished { name: clone_str(&call.name), success, output: shown }
}

/// The messages of the last model call after the tool budget: the history
/// and the request to summarize.
pub fn budget_summary_messages(history: &Vec<ChatMessage>, locale: Locale) -> (r: Vec<ChatMessage>)
    ensures
        msg_views(r@) == msg_views(history@).push(
            MessageView {
                role: Role::User,
                content: message_spec(locale, MessageId::ToolBudgetForceSummary, seq![]),
                tool_calls: None,
                tool_call_id: None,
                reasoning_content: None,
            },
        ),
{
    let mut r: Vec<ChatMessage> = Vec::new();
    let mut i: usize = 0;
    while i < history.len()
        invariant
            i <= history@.len(),
            msg_views(r@) == msg_views(history@).take(i as int),
        decreases history@.len() - i,
    {
        let m = copy_message(&history[i]);
        let ghost before = msg_views(r@);
        let ghost mv = m@;
        r.push(m);
        assert(msg_views(r@) =~= before.push(mv));
        assert(msg_views(history@).take(i + 1) =~= msg_views(history@).take(i as int).push(history@[i as int]@));
        i += 1;
    }
    assert(msg_views(history@).take(history@.len() as int) =~= msg_views(history@));
    let ghost before = msg_views(r@);
    let nudge = summary_nudge(locale);
    r.push(plain_message(Role::User, nudge));
    assert(msg_views(r@) =~= before.push(MessageView {
        role: Role::User,
        content: message_spec(locale, MessageId::ToolBudgetForceSummary, seq![]),
        tool_calls: None,
        tool_call_id: None,
        reasoning_content: None,
    }));
    r
}

/// The text of the last assistant message from `from` on with visible text.
pub open spec fn last_assistant_text(h: Seq<MessageView>, from: int, i: int) -> Seq<char>
    decreases i - from,
{
    if i <= from || i <= 0 {
        seq![]
    } else if h[i - 1].role == Role::Assistant && trim_spec(h[i - 1].content).len() > 0 {
        h[i - 1].content
    } else {
        last_assistant_text(h, from, i - 1)
    }
}

/// The summary text after the tool budget: the model's summary, else the
/// last assistant text of the turn.
pub open spec fn budget_text_spec(h: Seq<MessageView>, turn_start: int, summary: Option<(Option<Seq<char>>, Option<Seq<char>>)>) -> Seq<char> {
    let text = match summary {
        Some((c, r)) => cli_reply_spec(c, r),
        None => seq![],
    };
    if trim_spec(text).len() == 0 {
        last_assistant_text(h, turn_start, h.len() as int)
    } else {
        text
    }
}

/// The reply recorded after the tool budget: the text under the budget
/// prefix (unless it already starts with it).
pub open spec fn budget_reply_spec(locale: Locale, max_iters: usize, text: Seq<char>) -> Seq<char> {
    let prefix = message_spec(locale, MessageId::ToolBudgetSummaryPrefix, seq![decimal_spec(max_iters as nat)]);
    if starts_with_spec(text, prefix) {
        text
    } else {
        prefix + "\n\n"@ + text
    }
}

/// How the turn ends after the tool budget: the events to emit, and whether
/// memory extraction runs before them (`true`) or after them.
pub struct BudgetEnd {
    pub events: Vec<AgentEvent>,
    pub extract_first: bool,
}

/// Ends a turn whose tool budget ran out. `summary` is the model's answer to
/// the summary request (`None` when the call failed).
pub fn finish_after_budget(
    history: &mut Vec<ChatMessage>,
    turn_start: usize,
    summary: Option<(Option<String>, Option<String>)>,
    locale: Locale,
    max_iters: usize,
    streamed: bool,
) -> (r: BudgetEnd)
    ensures
        ({
            let h0 = msg_views(old(history)@);
            let sv = match summary {
                Some((c, x)) => Some((opt_str_view(c), opt_str_view(x))),
                None => None,
            };
            let text = budget_text_spec(h0, turn_start as int, sv);
            if trim_spec(text).len() == 0 {
                &&& msg_views(final(history)@) == h0
                &&& r.extract_first
                &&& r.events@.len() == 2
                &&& (r.events@[0] matches AgentEvent::Error { message } && message@ == message_spec(
                    locale,
                    MessageId::ToolIterationLimit,
                    seq![decimal_spec(max_iters as nat)],
                ))
                &&& r.events@[1] is TurnCompleted
            } else {
                let reply = budget_reply_spec(locale, max_iters, text);
                &&& msg_views(final(history)@) == h0.push(
                    MessageView { role: Role::Assistant, content: reply, tool_calls: None, tool_call_id: None, reasoning_content: None },
                )
                &&& !r.extract_first
                &&& if streamed {
                    r.events@.len() == 1 && r.events@[0] is TurnCompleted
                } else {
                    r.events@.len() == 2 && (r.events@[0] matches AgentEvent::AssistantDelta { text: x } && x@ == reply)
                        && r.events@[1] is TurnCompleted
                }
            }
        }),
{
    let ghost h0 = msg_views(history@);
    let mut text = match summary {
        Some((c, x)) => cli_reply_text(c, &x),
        None => {
            proof {
                reveal_strlit("");
            }
            to_string(&chars_of(""))
        },
    };
    if trim(&string_chars(&text)).len() == 0 {
        let mut i = history.len();
        let mut found: Option<String> = None;
        while found.is_none() && i > turn_start && i > 0
            invariant
                i <= history@.len(),
                h0 == msg_views(history@),
                found is None ==> last_assistant_text(h0, turn_start as int, i as int) == last_assistant_text(h0, turn_start as int, history@.len() as int),
                found matches Some(f) ==> f@ == last_assistant_text(h0, turn_start as int, history@.len() as int),
            decreases i, if found is None { 1int } else { 0int },
        {
            let m = &history[i - 1];
            assert(h0[i - 1] == m@);
            if m.role == Role::Assistant && trim(&string_chars(&m.content)).len() > 0 {
                found = Some(clone_str(&m.content));
            } else {
                i -= 1;
            }
        }
        text = match found {
            Some(f) => f,
            None => {
                proof {
                    reveal_strlit("");
                }
                to_string(&chars_of(""))
            },
        };
    }
    let mut events: Vec<AgentEvent> = Vec::new();
    if trim(&string_chars(&text)).len() == 0 {
        let mut args: Vec<String> = Vec::new();
        args.push(to_string(&decimal(max_iters as u64)));
        assert(views(args@) =~= seq![decimal_spec(max_iters as nat)]);
        events.push(AgentEvent::Error { message: t(locale, MessageId::ToolIterationLimit, args.as_slice()) });
        events.push(AgentEvent::TurnCompleted);
        return BudgetEnd { events, extract_first: true };
    }
    let prefix = budget_summary_prefix(locale, max_iters);
    let tv = string_chars(&text);
    let pv = string_chars(&prefix);
    let reply = if starts_with(&tv, &pv) {
        text
    } else {
        let mut c = pv;
        push_str(&mut c, "\n\n");
        crate::text::push_all(&mut c, &tv);
        to_string(&c)
    };
    let shown = clone_str(&reply);
    let ghost rv = reply@;
    history.push(plain_message(Role::Assistant, reply));
    assert(msg_views(history@) =~= h0.push(MessageView { role: Role::Assistant, content: rv, tool_calls: None, tool_call_id: None, reasoning_content: None }));
    if !streamed {
        events.push(AgentEvent::AssistantDelta { text: shown });
    }
    events.push(AgentEvent::TurnCompleted);
    BudgetEnd { events, extract_first: false }
}

/// The ids of the first and last summarized messages, when the stored ids
/// cover the compressed range.
pub fn compression_id_range(ids: &MessageIds, split: usize) -> (r: Option<(i64, i64)>)
    ensures
        r == if split <= 1 || ids.ids@.len() <= split {
            None
        } else {
            Some((ids.ids@[1], ids.ids@[split - 1]))
        },
{
    if split <= 1 || ids.ids.len() <= split {
        None
    } else {
        Some((ids.ids[1], ids.ids[split - 1]))
    }
}

/// The history after a turn is rolled back to `checkpoint` messages.
pub open spec fn rollback_history_spec(h: Seq<MessageView>, checkpoint: int) -> Seq<MessageView> {
    if h.len() <= checkpoint {
        h
    } else {
        h.take(checkpoint)
    }
}

/// Drops what a failed turn added: the history and the stored ids are cut back
/// to `checkpoint`, the persisted count is capped by it. Returns the new
/// persisted count and the store ids of the dropped messages (to take out of
/// the context in the store).
pub fn rollback_turn(
    history: &mut Vec<ChatMessage>,
    ids: &mut MessageIds,
    persisted_len: usize,
    checkpoint: usize,
) -> (r: (usize, Vec<i64>))
    ensures
        msg_views(final(history)@) == rollback_history_spec(msg_views(old(history)@), checkpoint as int),
        old(history)@.len() <= checkpoint ==> final(ids).ids@ == old(ids).ids@ && r.0 == persisted_len
            && r.1@.len() == 0,
        old(history)@.len() > checkpoint ==> {
            &&& final(ids).ids@ == if old(ids).ids@.len() > checkpoint {
                old(ids).ids@.take(checkpoint as int)
            } else {
                old(ids).ids@
            }
            &&& r.0 == if checkpoint < persisted_len { checkpoint } else { persisted_len }
            &&& r.1@ == if old(ids).ids@.len() > checkpoint {
                old(ids).ids@.skip(checkpoint as int)
            } else {
                Seq::<i64>::empty()
            }
        },
{
    if history.len() <= checkpoint {
        return (persisted_len, Vec::new());
    }
    let ghost h0 = msg_views(history@);
    let mut dropped: Vec<i64> = Vec::new();
    if ids.ids.len() > checkpoint {
        let mut i = checkpoint;
        while i < ids.ids.len()
            invariant
                checkpoint <= i <= ids.ids@.len(),
                dropped@ == ids.ids@.subrange(checkpoint as int, i as int),
            decreases ids.ids@.len() - i,
        {
            dropped.push(ids.ids[i]);
            i += 1;
        }
        ids.ids.truncate(checkpoint);
    }
    history.truncate(checkpoint);
    assert(msg_views(history@) =~= h0.take(checkpoint as int));
    let p = if checkpoint < persisted_len { checkpoint } else { persisted_len };
    (p, dropped)
}

/// The ids after compression at `split`: the first and those from `split` on.
pub open spec fn ids_after_compression(ids: Seq<i64>, split: int) -> Seq<i64> {
    if split == 0 || ids.len() <= split {
        ids
    } else {
        ids.take(1) + ids.skip(split)
    }
}

/// Where the message at `i` after compression at `split` stood before.
pub open spec fn compression_source(len: int, split: int, i: int) -> int {
    if split <= 1 || len <= split || i == 0 {
        i
    } else {
        i + split - 1
    }
}

/// Compression keeps every stored id with its message: when the history and
/// its ids line up, trimming both at the same split leaves them lined up, each
/// remaining message with the id it had.
pub proof fn law_compression_keeps_ids_aligned(h: Seq<MessageView>, ids: Seq<i64>, split: int)
    requires
        h.len() == ids.len(),
        split >= 0,
    ensures
        crate::context::compression_trim_spec(h, split).len() == ids_after_compression(ids, split).len(),
        forall|i: int| 0 <= i < crate::context::compression_trim_spec(h, split).len() ==> {
            let j = compression_source(h.len() as int, split, i);
            &&& 0 <= j < h.len()
            &&& #[trigger] crate::context::compression_trim_spec(h, split)[i] == h[j]
            &&& ids_after_compression(ids, split)[i] == ids[j]
        },
{
    if split == 1 && ids.len() > 1 {
        assert(ids.take(1) + ids.skip(1) =~= ids);
    }
}

/// Resets an in-memory conversation: a leading system message stays (with its
/// id), everything else goes; returns how many messages now count as persisted.
pub fn reset_in_memory(history: &mut Vec<ChatMessage>, ids: &mut MessageIds) -> (r: usize)
    ensures
        old(history)@.len() > 0 && old(history)@[0].role == Role::System ==> {
            &&& msg_views(final(history)@) == msg_views(old(history)@).take(1)
            &&& final(ids).ids@ == if old(ids).ids@.len() > 1 {
                old(ids).ids@.take(1)
            } else {
                old(ids).ids@
            }
            &&& r == 1
        },
        !(old(history)@.len() > 0 && old(history)@[0].role == Role::System) ==> {
            &&& final(history)@.len() == 0
            &&& final(ids).ids@.len() == 0
            &&& r == 0
        },
{
    if history.len() > 0 && history[0].role == Role::System {
        let ghost h0 = msg_views(history@);
        history.truncate(1);
        ids.ids.truncate(1);
        assert(msg_views(history@) =~= h0.take(1));
        1
    } else {
        history.clear();
        ids.ids.clear();
        0
    }
}

/// One round of healing a loaded history: it goes on while the history is
/// over budget and its estimate is still below the last round's; the estimate
/// to compare the next round with is returned.
pub fn heal_step(history: &[ChatMessage], config: &crate::config::context::ContextConfig, last_tokens: usize) -> (r: Option<usize>)
    requires
        crate::context::total_weight(msg_views(history@)) <= usize::MAX,
    ensures
        r == if config.enabled && crate::context::estimate_spec(msg_views(history@)) > crate::config::context::k_tokens(
            config.compress_at_k,
        ) && crate::context::estimate_spec(msg_views(history@)) < last_tokens {
            Some(crate::context::estimate_spec(msg_views(history@)) as usize)
        } else {
            None
        },
{
    if !crate::context::over_context_budget(history, config) {
        return None;
    }
    let tokens = crate::context::estimate_tokens(history);
    if tokens >= last_tokens {
        None
    } else {
        Some(tokens)
    }
}

/// A failed turn leaves no trace: rolling back to the length the history had
/// before the turn gives that history again, whatever the turn appended.
pub proof fn law_rollback_restores_checkpoint(before: Seq<MessageView>, added: Seq<MessageView>)
    ensures
        rollback_history_spec(before + added, before.len() as int) == before,
{
    assert((before + added).take(before.len() as int) =~= before);
}

/// A write that brings a stored message in line with the history.
pub enum ContentUpdate {
    /// The session's system prompt.
    System(String),
    /// The stored message with this id.
    Message(i64, String),
}

/// The writes that copy the contents of the first persisted messages (as far
/// as ids are known) to the store; the system prompt at the head has its own.
pub fn persisted_content_updates(history: &[ChatMessage], ids: &MessageIds, persisted_len: usize) -> (r: Vec<ContentUpdate>)
    ensures
        r@.len() == if history@.len() <= ids.ids@.len() {
            if history@.len() <= persisted_len { history@.len() as int } else { persisted_len as int }
        } else {
            if ids.ids@.len() <= persisted_len { ids.ids@.len() as int } else { persisted_len as int }
        },
        forall|i: int| 0 <= i < r@.len() ==> match #[trigger] r@[i] {
            ContentUpdate::System(c) => i == 0 && history@[0].role == Role::System && c@ == history@[0].content@,
            ContentUpdate::Message(id, c) => !(i == 0 && history@[0].role == Role::System)
                && id == ids.ids@[i] && c@ == history@[i].content@,
        },
{
    let mut bound = history.len();
    if ids.ids.len() < bound {
        bound = ids.ids.len();
    }
    if persisted_len < bound {
        bound = persisted_len;
    }
    let mut out: Vec<ContentUpdate> = Vec::new();
    let mut i: usize = 0;
    while i < bound
        invariant
            i <= bound,
            bound <= history@.len(),
            bound <= ids.ids@.len(),
            out@.len() == i,
            forall|k: int| 0 <= k < i ==> match #[trigger] out@[k] {
                ContentUpdate::System(c) => k == 0 && history@[0].role == Role::System && c@ == history@[0].content@,
                ContentUpdate::Message(id, c) => !(k == 0 && history@[0].role == Role::System)
                    && id == ids.ids@[k] && c@ == history@[k].content@,
            },
        decreases bound - i,
    {
        let content = clone_str(&history[i].content);
        if i == 0 && history[i].role == Role::System {
            out.push(ContentUpdate::System(content));
        } else {
            out.push(ContentUpdate::Message(ids.ids[i], content));
        }
        i += 1;
    }
    out
}

/// The messages appended since the last save.
pub fn unsaved_messages(history: &[ChatMessage], persisted_len: usize) -> (r: Vec<ChatMessage>)
    ensures
        msg_views(r@) == if persisted_len < history@.len() {
            msg_views(history@).skip(persisted_len as int)
        } else {
            Seq::<MessageView>::empty()
        },
{
    let mut out: Vec<ChatMessage> = Vec::new();
    if persisted_len >= history.len() {
        assert(msg_views(out@) =~= Seq::<MessageView>::empty());
        return out;
    }
    let mut i = persisted_len;
    while i < history.len()
        invariant
            persisted_len <= i <= history@.len(),
            msg_views(out@) == msg_views(history@).subrange(persisted_len as int, i as int),
        decreases history@.len() - i,
    {
        let m = copy_message(&history[i]);
        let ghost before = out@;
        out.push(m);
        assert(msg_views(out@) =~= msg_views(before).push(history@[i as int]@));
        assert(msg_views(history@).subrange(persisted_len as int, i + 1) =~= msg_views(history@).subrange(persisted_len as int, i as int).push(history@[i as int]@));
        i += 1;
    }
    assert(msg_views(history@).skip(persisted_len as int) =~= msg_views(history@).subrange(persisted_len as int, history@.len() as int));
    out
}

/// Whether knots are extracted right after a turn: only when that is on and
/// the turn added messages; in cue-only mode, only when a user message carries
/// a memory cue or the turn reached the token minimum (when one is set).
pub fn should_extract_after_turn(
    extract_after_turn: bool,
    cue_only: bool,
    min_tokens: usize,
    turn_messages: &[ChatMessage],
) -> (r: bool)
    requires
        crate::context::total_weight(msg_views(turn_messages@)) <= usize::MAX,
    ensures
        r == (extract_after_turn && turn_messages@.len() > 0 && (!cue_only || (exists|i: int|
            0 <= i < turn_messages@.len() && crate::memory::extract::has_cue(#[trigger] turn_messages@[i]@))
            || (min_tokens > 0 && crate::context::estimate_spec(msg_views(turn_messages@)) >= min_tokens))),
{
    if !extract_after_turn || turn_messages.len() == 0 {
        return false;
    }
    if cue_only {
        let has_cue = crate::memory::extract::turn_has_memory_cue(turn_messages);
        let big_turn = min_tokens > 0 && crate::context::estimate_tokens(turn_messages) >= min_tokens;
        if !has_cue && !big_turn {
            return false;
        }
    }
    true
}

/// Running totals of the emergency trims of one budget enforcement.
pub struct TrimTally {
    pub total_trimmed: u32,
    pub tokens_before: Option<usize>,
    pub tokens_after: Option<usize>,
}

impl TrimTally {
    pub fn new() -> (r: Self)
        ensures
            r.total_trimmed == 0,
            r.tokens_before is None,
            r.tokens_after is None,
    {
        TrimTally { total_trimmed: 0, tokens_before: None, tokens_after: None }
    }

    /// Adds one trim: keeps the first "before", the last "after", and the count.
    pub fn add(&mut self, o: &EmergencyTrimOutcome)
        requires
            old(self).total_trimmed + o.messages_trimmed <= u32::MAX,
        ensures
            final(self).total_trimmed == old(self).total_trimmed + o.messages_trimmed,
            final(self).tokens_before == if old(self).tokens_before is None {
                Some(o.tokens_before)
            } else {
                old(self).tokens_before
            },
            final(self).tokens_after == Some(o.tokens_after),
    {
        if self.tokens_before.is_none() {
            self.tokens_before = Some(o.tokens_before);
        }
        self.tokens_after = Some(o.tokens_after);
        self.total_trimmed = self.total_trimmed + o.messages_trimmed;
    }

    /// The notice of the trims, when there were any.
    pub fn summary_event(&self) -> (r: Option<AgentEvent>)
        ensures
            self.total_trimmed == 0 ==> r is None,
            self.total_trimmed > 0 ==> (r matches Some(AgentEvent::ContextCompressed { summary }) && summary@
                == crate::context::emergency_summary_spec(
                EmergencyTrimOutcome {
                    messages_trimmed: self.total_trimmed,
                    tokens_before: match self.tokens_before {
                        Some(v) => v,
                        None => 0,
                    },
                    tokens_after: match self.tokens_after {
                        Some(v) => v,
                        None => 0,
                    },
                },
            )),
    {
        if self.total_trimmed == 0 {
            return None;
        }
        let o = EmergencyTrimOutcome {
            messages_trimmed: self.total_trimmed,
            tokens_before: match self.tokens_before {
                Some(v) => v,
                None => 0,
            },
            tokens_after: match self.tokens_after {
                Some(v) => v,
                None => 0,
            },
        };
        Some(AgentEvent::ContextCompressed { summary: crate::context::emergency_trim_summary(&o) })
    }
}

} // verus!
