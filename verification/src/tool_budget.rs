//! Per-turn tool-call budget: pressure notices and the summary nudge.
use vstd::prelude::*;
use crate::llm::{msg_views, ChatMessage, MessageView, Role};
use crate::messages::catalog::message_spec;
use crate::messages::id::MessageId;
use crate::messages::locale::Locale;
use crate::messages::t;
use crate::text::{decimal, decimal_spec, push_str, string_chars, to_string, views};

verus! {

/// Sent as a synthetic user turn when the iteration cap is hit.
pub fn summary_nudge(locale: Locale) -> (r: String)
    ensures
        r@ == message_spec(locale, MessageId::ToolBudgetForceSummary, seq![]),
{
    let none: Vec<String> = Vec::new();
    assert(views(none@) =~= Seq::<Seq<char>>::empty());
    t(locale, MessageId::ToolBudgetForceSummary, none.as_slice())
}

/// `iteration * 100`, saturating.
pub open spec fn sat_pct(iteration: usize, max_iters: usize) -> int {
    (if iteration as int * 100 > usize::MAX {
        usize::MAX as int
    } else {
        iteration as int * 100
    }) / max_iters as int
}

/// A reminder once 70% of the iterations are used (none before, past the cap, or without a cap).
pub open spec fn pressure_spec(locale: Locale, iteration: usize, max_iters: usize) -> Option<Seq<char>> {
    if max_iters == 0 || iteration == 0 || iteration > max_iters {
        None
    } else if sat_pct(iteration, max_iters) >= 70 {
        Some(message_spec(
            locale,
            MessageId::ToolBudgetReminder,
            seq![
                decimal_spec(iteration as nat),
                decimal_spec(max_iters as nat),
                decimal_spec((max_iters - iteration) as nat),
            ],
        ))
    } else {
        None
    }
}

fn num_string(n: usize) -> (r: String)
    ensures
        r@ == decimal_spec(n as nat),
{
    to_string(&decimal(n as u64))
}

pub fn budget_pressure_notice(locale: Locale, iteration: usize, max_iters: usize) -> (r: Option<String>)
    ensures
        match r {
            None => pressure_spec(locale, iteration, max_iters) is None,
            Some(s) => pressure_spec(locale, iteration, max_iters) == Some(s@),
        },
{
    if max_iters == 0 || iteration == 0 || iteration > max_iters {
        return None;
    }
    let left = max_iters - iteration;
    let scaled = if iteration > usize::MAX / 100 {
        usize::MAX
    } else {
        iteration * 100
    };
    let pct = scaled / max_iters;
    if pct >= 70 {
        let mut args: Vec<String> = Vec::new();
        args.push(num_string(iteration));
        args.push(num_string(max_iters));
        args.push(num_string(left));
        assert(views(args@) =~= seq![
            decimal_spec(iteration as nat),
            decimal_spec(max_iters as nat),
            decimal_spec(left as nat),
        ]);
        Some(t(locale, MessageId::ToolBudgetReminder, args.as_slice()))
    } else {
        None
    }
}

pub fn budget_summary_prefix(locale: Locale, max_iters: usize) -> (r: String)
    ensures
        r@ == message_spec(locale, MessageId::ToolBudgetSummaryPrefix, seq![decimal_spec(max_iters as nat)]),
{
    let mut args: Vec<String> = Vec::new();
    args.push(num_string(max_iters));
    assert(views(args@) =~= seq![decimal_spec(max_iters as nat)]);
    t(locale, MessageId::ToolBudgetSummaryPrefix, args.as_slice())
}

/// `m` with `notice` appended to its text (after a blank line when it has text).
pub open spec fn with_notice(m: MessageView, notice: Seq<char>) -> MessageView {
    MessageView {
        role: m.role,
        content: if m.content.len() > 0 {
            m.content + "\n\n"@ + notice
        } else {
            notice
        },
        tool_calls: m.tool_calls,
        tool_call_id: m.tool_call_id,
        reasoning_content: m.reasoning_content,
    }
}

/// The history with the notice appended to its last message when that is a tool result.
pub open spec fn notice_applied(h: Seq<MessageView>, notice: Seq<char>) -> Seq<MessageView> {
    if h.len() > 0 && h.last().role == Role::Tool {
        h.update(h.len() - 1, with_notice(h.last(), notice))
    } else {
        h
    }
}

fn append_notice_to_last_tool(history: &mut Vec<ChatMessage>, notice: &str)
    ensures
        msg_views(final(history)@) == notice_applied(msg_views(old(history)@), notice@),
{
    let ghost hv = msg_views(history@);
    let n = history.len();
    if n == 0 {
        return;
    }
    if history[n - 1].role != Role::Tool {
        return;
    }
    let last = history.pop().unwrap();
    let mut c = string_chars(&last.content);
    if c.len() > 0 {
        push_str(&mut c, "\n\n");
    }
    push_str(&mut c, notice);
    let m = ChatMessage {
        role: last.role,
        content: to_string(&c),
        tool_calls: last.tool_calls,
        tool_call_id: last.tool_call_id,
        reasoning_content: last.reasoning_content,
    };
    history.push(m);
    assert(msg_views(history@) =~= hv.update(hv.len() - 1, with_notice(hv.last(), notice@)));
}

/// Appends the budget reminder, when one is due, to the last tool result.
pub fn apply_budget_pressure(locale: Locale, history: &mut Vec<ChatMessage>, iteration: usize, max_iters: usize)
    ensures
        msg_views(final(history)@) == match pressure_spec(locale, iteration, max_iters) {
            Some(n) => notice_applied(msg_views(old(history)@), n),
            None => msg_views(old(history)@),
        },
{
    match budget_pressure_notice(locale, iteration, max_iters) {
        Some(notice) => append_notice_to_last_tool(history, notice.as_str()),
        None => {},
    }
}

} // verus!
