use hi_core::approval::policy::{ApprovalPolicy, FileFacts, FileOp};
use hi_core::config::channels::{account_name_for_platform_endpoint_id, ChannelsConfig};
use hi_core::config::str_map::StrMap;
use hi_core::config::wecom::WeComConfig;
use hi_core::agent::MessageIds;
use hi_core::config::endpoint::endpoint_id_for_account;
use hi_core::config::context::ContextConfig;
use hi_core::context::{apply_compression_trim, emergency_trim_history, estimate_tokens, TRUNC_SUFFIX};
use hi_core::llm::{ChatMessage, Role};
use hi_core::config::tools::{ApprovalMode, ApprovalsConfig};
use hi_core::diff::{line_diff, DiffKind, DiffLine};
use hi_core::event::{split_channel_message, SerializableDiffLine};
use hi_core::memory::inject::{format_full_block, KnotText};
use hi_core::memory::types::{KnotConfidence, KnotKind, KnotStatus, TaskStatus};
use hi_core::messages::locale::Locale;

fn knot(id: i64, kind: KnotKind, content: &str) -> KnotText {
    KnotText {
        id,
        kind,
        content: content.to_string(),
        confidence: KnotConfidence::Confirmed,
        task_status: None,
    }
}

#[test]
fn diff_rebuilds_old_and_new_lines() {
    let old = "alpha\nbeta\ngamma\ndelta";
    let new = "alpha\ngamma\nepsilon\ndelta\nzeta";
    let d = line_diff(old, new);
    let old_side: Vec<String> = d
        .iter()
        .filter(|l| l.kind != DiffKind::Add)
        .map(|l| l.text.clone())
        .collect();
    let new_side: Vec<String> = d
        .iter()
        .filter(|l| l.kind != DiffKind::Remove)
        .map(|l| l.text.clone())
        .collect();
    assert_eq!(old_side, vec!["alpha", "beta", "gamma", "delta"]);
    assert_eq!(new_side, vec!["alpha", "gamma", "epsilon", "delta", "zeta"]);
}

#[test]
fn diff_of_one_changed_line() {
    let d = line_diff("a\nb", "a\nc");
    assert_eq!(d.len(), 3);
    assert_eq!(d[0].kind, DiffKind::Context);
    assert_eq!(d[0].text, "a");
    assert_eq!(d[1].kind, DiffKind::Remove);
    assert_eq!(d[1].text, "b");
    assert_eq!(d[2].kind, DiffKind::Add);
    assert_eq!(d[2].text, "c");
}

#[test]
fn split_message_chunks_rejoin_to_the_text() {
    let text = "第一行内容\nsecond line here\nthird line, a bit longer than the others\n尾巴";
    for max in [1usize, 5, 16, 40, 1000] {
        let chunks = split_channel_message(text, max);
        assert_eq!(chunks.concat(), text);
    }
    assert!(split_channel_message("", 10).is_empty());
    assert_eq!(split_channel_message("short", 0), vec!["short".to_string()]);
}

#[test]
fn knot_names_parse_back() {
    for k in [
        KnotKind::Preference,
        KnotKind::Fact,
        KnotKind::Decision,
        KnotKind::Task,
        KnotKind::Procedure,
    ] {
        assert_eq!(KnotKind::parse(k.as_str()), Some(k));
    }
    for c in [KnotConfidence::Confirmed, KnotConfidence::Inferred, KnotConfidence::Dream] {
        assert_eq!(KnotConfidence::from_db(c.as_str()), c);
    }
    for s in [KnotStatus::Active, KnotStatus::Superseded, KnotStatus::Deleted] {
        assert_eq!(KnotStatus::from_db(s.as_str()), s);
    }
    for t in [TaskStatus::Open, TaskStatus::Done, TaskStatus::Cancelled] {
        assert_eq!(TaskStatus::from_db_opt(Some(t.as_str().to_string())), Some(t));
    }
    assert_eq!(KnotConfidence::from_db("whatever"), KnotConfidence::Inferred);
    assert_eq!(TaskStatus::from_db_opt(None), None);
}

#[test]
fn locale_tags_read_back() {
    assert_eq!(Locale::from_tag(Locale::Zh.as_str()), Some(Locale::Zh));
    assert_eq!(Locale::from_tag(Locale::En.as_str()), Some(Locale::En));
    assert_eq!(Locale::from_tag(" zh_CN.UTF-8 "), Some(Locale::Zh));
    assert_eq!(Locale::from_tag("en-US"), Some(Locale::En));
    assert_eq!(Locale::from_tag("fr"), None);
}

#[test]
fn endpoint_ids_round_trip() {
    for (platform, account) in [("wecom", "default"), ("wecom", "team"), ("feishu", "ops"), ("weixin", "a:b")] {
        let id = endpoint_id_for_account(platform, account);
        assert_eq!(
            account_name_for_platform_endpoint_id(platform, &id),
            Some(account.to_string())
        );
    }
    assert_eq!(endpoint_id_for_account("wecom", "default"), "wecom");
    assert_eq!(endpoint_id_for_account("wecom", "team"), "wecom:team");
    assert_eq!(account_name_for_platform_endpoint_id("wecom", "feishu:x"), None);
}

fn policy(mode: ApprovalMode) -> ApprovalPolicy {
    let mut cfg = ApprovalsConfig::default();
    cfg.mode = mode;
    ApprovalPolicy::from_config(&cfg, Locale::En)
}

#[test]
fn granted_command_is_not_asked_again() {
    let mut p = policy(ApprovalMode::On);
    assert!(p.requires_approval("sudo ls /root"));
    let key = p.grant_command("sudo ls /root").unwrap();
    assert_eq!(key, "sudo");
    assert!(!p.requires_approval("sudo ls /root"));
    assert!(!p.requires_approval("sudo cat /etc/hosts"));
    assert_eq!(p.command_allow, vec!["sudo".to_string()]);
    // granting again does not repeat the entry
    p.grant_command("sudo ls /root").unwrap();
    assert_eq!(p.command_allow.len(), 1);
    assert!(p.requires_approval("curl http://example.com"));
}

#[test]
fn approvals_off_never_ask() {
    let p = policy(ApprovalMode::Off);
    assert!(!p.requires_approval("sudo rm -rf /tmp/x"));
    let facts = FileFacts {
        resolved: "/etc/passwd".to_string(),
        denied: true,
        in_workspace: Ok(false),
        allowed: false,
        grant_dir: None,
    };
    assert!(matches!(p.requires_file_approval(&facts, FileOp::Write), Ok(None)));
    assert!(matches!(p.requires_bash_approval("sudo ls", &vec![]), Ok(None)));
    // With approvals off the command is not analysed, so any text is answered.
    assert!(!p.requires_approval("echo 你好"));
    assert!(matches!(p.requires_bash_approval("echo 你好 > /etc/x", &vec![]), Ok(None)));
}

#[test]
fn deny_list_refuses_even_in_workspace() {
    let p = policy(ApprovalMode::On);
    let facts = FileFacts {
        resolved: "/w/.ssh/id_rsa".to_string(),
        denied: true,
        in_workspace: Ok(true),
        allowed: true,
        grant_dir: None,
    };
    match p.requires_file_approval(&facts, FileOp::Read) {
        Err(e) => assert_eq!(e.render(Locale::En), "file access denied by policy: /w/.ssh/id_rsa"),
        Ok(_) => panic!("a denied path must be refused"),
    }
}

#[test]
fn memory_block_stays_within_budget() {
    let knots = vec![
        knot(1, KnotKind::Preference, "likes green tea"),
        knot(2, KnotKind::Fact, "lives in Hangzhou"),
        knot(3, KnotKind::Decision, "uses PostgreSQL for the project"),
    ];
    let full = format_full_block(&knots, 100_000);
    let intro_len = "## Long-term memory\n\nFacts about the user from prior sessions. If anything conflicts with the current conversation, prefer the conversation; ask when unsure.\n".chars().count();
    for max in intro_len..full.chars().count() + 5 {
        let b = format_full_block(&knots, max);
        assert!(b.chars().count() <= max);
        assert!(full.starts_with(&b));
    }
}

#[test]
fn saving_loaded_channels_keeps_them() {
    let mut wecom = StrMap::new();
    let mut a = WeComConfig::default();
    a.secret = "s".into();
    wecom.insert("a".to_string(), a);
    wecom.insert("b".to_string(), WeComConfig::default());
    let loaded = ChannelsConfig::from_accounts(wecom, StrMap::new(), StrMap::new(), None, None, None);
    let names: Vec<String> = loaded.wecom_accounts.entries.iter().map(|(n, _)| n.clone()).collect();
    let saved = loaded.for_saving().expect("an account is left");
    let again: Vec<String> = saved.wecom_accounts.entries.iter().map(|(n, _)| n.clone()).collect();
    assert_eq!(names, vec!["a".to_string()]);
    assert_eq!(again, names);
    assert_eq!(saved.wecom_accounts.entries[0].1.secret, "s");
}

#[test]
fn compression_keeps_ids_with_messages() {
    let texts = ["sys", "a", "b", "c", "d"];
    let mut history: Vec<ChatMessage> = texts
        .iter()
        .enumerate()
        .map(|(i, t)| ChatMessage {
            role: if i == 0 { Role::System } else { Role::User },
            content: t.to_string(),
            tool_calls: None,
            tool_call_id: None,
            reasoning_content: None,
        })
        .collect();
    let mut ids = MessageIds { ids: vec![10, 11, 12, 13, 14] };
    apply_compression_trim(&mut history, 3);
    ids.trim_after_compression(3);
    let kept: Vec<(&str, i64)> = history.iter().map(|m| m.content.as_str()).zip(ids.ids.iter().copied()).collect();
    assert_eq!(kept, vec![("sys", 10), ("c", 13), ("d", 14)]);
    assert_eq!(history.len(), ids.ids.len());
    apply_compression_trim(&mut history, 1);
    ids.trim_after_compression(1);
    assert_eq!(history.len(), 3);
    assert_eq!(ids.ids, vec![10, 13, 14]);
}

#[test]
fn diff_line_round_trip() {
    for kind in [DiffKind::Remove, DiffKind::Add, DiffKind::Context] {
        let line = DiffLine { kind, text: "x y".to_string() };
        let back = SerializableDiffLine::from(line.clone()).to_diff_line();
        assert_eq!(back, line);
    }
}

fn chat_msg(role: Role, content: String) -> ChatMessage {
    ChatMessage { role, content, tool_calls: None, tool_call_id: None, reasoning_content: None }
}

#[test]
fn emergency_trim_runs_until_under_budget() {
    let mut config = ContextConfig::default();
    config.enabled = true;
    config.compress_at_k = 1;
    config.trim_keep_chars = 0;
    let mut history = vec![chat_msg(Role::System, String::new()), chat_msg(Role::User, "a".repeat(1_000_000))];
    let before = estimate_tokens(&history);
    let outcome = emergency_trim_history(&mut history, &config).expect("something was cut");
    assert_eq!(outcome.tokens_before, before);
    assert!(estimate_tokens(&history) <= 1000);
    assert_eq!(outcome.tokens_after, estimate_tokens(&history));
    assert!(outcome.messages_trimmed > 8);
    assert_eq!(history.len(), 2);
    assert_eq!(history[0].content, "");
    assert!(history[1].content.ends_with(TRUNC_SUFFIX));
    assert!(history[1].content.starts_with("aaaa"));
}

#[test]
fn emergency_trim_stops_at_the_floor() {
    let mut config = ContextConfig::default();
    config.enabled = true;
    config.compress_at_k = 1;
    config.trim_keep_chars = 0;
    // Forty messages of 1000 characters stay over budget even at the floor of 256 characters.
    let mut history = vec![chat_msg(Role::System, "sys".into())];
    for _ in 0..40 {
        history.push(chat_msg(Role::User, "b".repeat(1000)));
    }
    let outcome = emergency_trim_history(&mut history, &config).expect("something was cut");
    assert!(estimate_tokens(&history) > 1000);
    for m in &history[1..] {
        let base = m.content.split(TRUNC_SUFFIX).next().unwrap().chars().count();
        assert!(base <= 256);
    }
    assert_eq!(history[0].content, "sys");
    assert!(outcome.messages_trimmed >= 40);
    // Nothing is left to cut: a second trim does nothing.
    assert!(emergency_trim_history(&mut history, &config).is_none());
}
