use hi_core::approval::policy::{format_approval_prompt, is_approval_confirm, is_approval_deny};
use hi_core::approval::shell_cmd::{analyze_dangers, is_dangerous_command, is_hardline_command, primary_grant_key};
use hi_core::approval::shell_deobfuscate::{deobfuscate, normalize_for_detection};
use hi_core::llm::{ChatMessage, Role};
use hi_core::memory::extract::turn_has_memory_cue;
use hi_core::memory::search::extract_keywords;
use hi_core::messages::id::MessageId;
use hi_core::messages::locale::Locale;
use hi_core::messages::t;
use hi_core::session::{parse_session_command, SessionCommand};

#[test]
fn sudo_is_dangerous_but_not_hardline() {
    let hits = analyze_dangers("sudo ls /root");
    assert_eq!(hits.len(), 1);
    assert_eq!(hits[0].grant_key, "sudo");
    assert!(!hits[0].hardline);
    assert!(is_dangerous_command("sudo ls /root"));
    assert!(!is_hardline_command("sudo ls /root"));
    assert_eq!(primary_grant_key("sudo ls /root"), "sudo");
}

#[test]
fn recursive_rm_of_root_is_hardline() {
    assert!(is_hardline_command("rm -rf /"));
    assert!(is_dangerous_command("rm -rf build"));
    assert!(!is_hardline_command("rm -rf build"));
    assert!(is_hardline_command("mkfs /dev/sda1"));
}

#[test]
fn plain_commands_are_safe() {
    assert!(analyze_dangers("ls -la").is_empty());
    assert!(!is_dangerous_command("git status && cargo test"));
    assert_eq!(primary_grant_key("ls -la"), "ls");
    assert_eq!(primary_grant_key(""), "bash");
}

#[test]
fn ansi_c_quotes_are_decoded() {
    let (out, settled) = deobfuscate("echo $'\\x41'");
    assert_eq!(out, "echo A");
    assert!(settled);
    assert!(normalize_for_detection("s$'\\x75'do ls").contains("sudo"));
}

#[test]
fn approval_replies() {
    assert!(is_approval_confirm(" 确认 "));
    assert!(is_approval_confirm("Yes"));
    assert!(!is_approval_confirm("yep"));
    assert!(is_approval_deny("取消"));
    assert!(is_approval_deny(" no"));
    assert!(!is_approval_deny("nope"));
}

#[test]
fn approval_prompt_text() {
    assert_eq!(
        format_approval_prompt(Locale::En, "bash", "sudo ls", "commands.allow = \"sudo\""),
        "⚠️ Confirmation required — reply approve/confirm or cancel:\nbash: sudo ls\n→ add commands.allow = \"sudo\""
    );
    assert_eq!(
        t(Locale::En, MessageId::ApprovalPromptFile, &["write".to_string(), "/x".to_string(), "g".to_string()]),
        "⚠️ Confirmation required — reply approve/confirm or cancel:\nwrite: /x\n→ add g"
    );
}

fn user(text: &str) -> ChatMessage {
    ChatMessage {
        role: Role::User,
        content: text.to_string(),
        tool_calls: None,
        tool_call_id: None,
        reasoning_content: None,
    }
}

#[test]
fn memory_cues_ignore_case() {
    assert!(turn_has_memory_cue(&[user("Please REMEMBER that I use vim")]));
    assert!(turn_has_memory_cue(&[user("记住：周五开会")]));
    assert!(!turn_has_memory_cue(&[user("what time is it")]));
    let mut assistant = user("remember this");
    assistant.role = Role::Assistant;
    assert!(!turn_has_memory_cue(&[assistant]));
}

#[test]
fn keywords_sorted_and_distinct() {
    assert_eq!(
        extract_keywords("Rust rust TOKIO 数据库 a 的 io"),
        vec!["rust".to_string(), "tokio".to_string(), "数据库".to_string()]
    );
}

#[test]
fn session_commands() {
    assert_eq!(parse_session_command(" /reset "), Some(SessionCommand::Reset));
    assert_eq!(parse_session_command("/compact"), Some(SessionCommand::Compact));
    assert_eq!(parse_session_command("/other"), None);
}
