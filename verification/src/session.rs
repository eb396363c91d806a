//! Users, sessions and the session commands shared by the interactive front ends.
use vstd::prelude::*;
use crate::text::{str_eq, str_trim, trim_spec};

verus! {

#[derive(Debug, Clone, PartialEq, Eq, Hash)]
pub struct UserId(pub String);

#[derive(Debug, Clone, PartialEq, Eq, Hash)]
pub struct SessionId(pub String);

/// Built-in session commands shared by the TUI and the chat REPL.
#[derive(Debug, Clone, Copy, PartialEq, Eq, Structural)]
pub enum SessionCommand {
    Reset,
    Compact,
}

pub open spec fn session_command_spec(input: Seq<char>) -> Option<SessionCommand> {
    let t = trim_spec(input);
    if t == "/reset"@ || t == "/clear"@ {
        Some(SessionCommand::Reset)
    } else if t == "/compact"@ {
        Some(SessionCommand::Compact)
    } else {
        None
    }
}

pub fn parse_session_command(input: &str) -> (r: Option<SessionCommand>)
    ensures
        r == session_command_spec(input@),
{
    let t = str_trim(input);
    if str_eq(t, "/reset") || str_eq(t, "/clear") {
        Some(SessionCommand::Reset)
    } else if str_eq(t, "/compact") {
        Some(SessionCommand::Compact)
    } else {
        None
    }
}

/// Handle for an active or persisted conversation.
#[derive(Debug, Clone)]
pub struct SessionHandle {
    pub user_id: UserId,
    pub session_id: SessionId,
}

} // verus!
