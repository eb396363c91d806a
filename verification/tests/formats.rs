use hi_core::approval::policy::{glob_match, permission_entry};
use hi_core::config::ai::{AiConfig, AiProviderEntry};
use hi_core::config::feishu::FeishuConfig;
use hi_core::config::gateway_channel::{
    available_gateway_channels, default_gateway_channel_id, gateway_channel, gateway_channel_default,
};
use hi_core::config::hi_toml::{
    document_from_text, migrated_document, render_document, render_toml_text, TomlItem, TomlTable,
};
use hi_core::config::paths::{
    data_directory, expand_path, hi_config_path, join_path, normalize_workspace, sessions_db_path,
};
use hi_core::config::str_map::StrMap;
use hi_core::error::Error;
use hi_core::llm::{ChatMessage, Role};
use hi_core::memory::extract::{
    extract_json_text, extract_request, extracted_knot_from, format_existing_knots, ExtractedKnot, KnotDigest,
    EXTRACT_SYSTEM,
};
use hi_core::memory::inject::{build_injection, format_baseline_block, format_full_block, KnotText};
use hi_core::memory::merge::{draft_for, task_status_for, MergeOutcome};
use hi_core::memory::search::{format_search_results, search_hit, search_query_and_limit};
use hi_core::memory::types::{content_hash, KnotConfidence, KnotKind, KnotVisibility, TaskStatus};
use hi_core::messages::id::MessageId;
use hi_core::messages::locale::Locale;
use hi_core::store::knots::{KnotEventType, MergeKnotResult};
use hi_core::store::schema::incompatible_error;

fn line(s: &str) -> TomlItem {
    TomlItem::Line(s.to_string())
}

fn table(entries: Vec<(&str, TomlItem)>) -> TomlItem {
    TomlItem::Table(TomlTable {
        entries: entries.into_iter().map(|(k, v)| (k.to_string(), v)).collect(),
    })
}

#[test]
fn hi_toml_sections_in_fixed_order() {
    let root = TomlTable {
        entries: vec![
            (
                "ai".to_string(),
                table(vec![
                    ("default", line("default = \"x\"")),
                    (
                        "providers",
                        table(vec![
                            ("junk", line("junk = 1")),
                            ("p1", table(vec![("model", line("model = \"m\""))])),
                        ]),
                    ),
                ]),
            ),
            (
                "tools".to_string(),
                table(vec![
                    ("approvals", table(vec![("mode", line("mode = \"on\""))])),
                    ("other", line("other = 1")),
                ]),
            ),
            ("workspace".to_string(), line("workspace = \"/w\"")),
            ("zzz".to_string(), line("zzz = 1")),
        ],
    };
    let text = render_document(&root);
    assert_eq!(
        text,
        "workspace = \"/w\"\n[ai]\ndefault = \"x\"\n[ai.providers]\n[ai.providers.p1]\nmodel = \"m\"\n\n\n\n[tools]\n[tools.approvals]\n# on = 需确认（默认）；off = 全部免审\nmode = \"on\"\n\n\nzzz = 1\n"
    );
}

#[test]
fn hi_toml_channels_after_tools() {
    let root = TomlTable {
        entries: vec![
            (
                "channels".to_string(),
                table(vec![
                    ("custom", table(vec![("x", line("x = 1"))])),
                    ("http", table(vec![("port", line("port = 8080"))])),
                    ("note", line("note = \"dropped\"")),
                    ("wecom", table(vec![("bot_id", line("bot_id = \"b\""))])),
                ]),
            ),
            ("locale".to_string(), line("locale = \"en\"")),
        ],
    };
    let text = render_document(&root);
    assert_eq!(
        text,
        "[channels.http]\nport = 8080\n\nlocale = \"en\"\n[channels.wecom]\nbot_id = \"b\"\n\n[channels.custom]\nx = 1\n\n"
    );
    assert_eq!(render_document(&TomlTable { entries: vec![] }), "");
}

fn knot(id: i64, kind: KnotKind, content: &str, c: KnotConfidence, t: Option<TaskStatus>) -> KnotText {
    KnotText { id, kind, content: content.to_string(), confidence: c, task_status: t }
}

const FULL_INTRO: &str = "## Long-term memory\n\nFacts about the user from prior sessions. If anything conflicts with the current conversation, prefer the conversation; ask when unsure.\n";

#[test]
fn full_memory_block_text() {
    let knots = vec![
        knot(1, KnotKind::Task, "ship it", KnotConfidence::Inferred, Some(TaskStatus::Open)),
        knot(2, KnotKind::Preference, "likes tea", KnotConfidence::Confirmed, None),
        knot(3, KnotKind::Task, "old chore", KnotConfidence::Dream, Some(TaskStatus::Done)),
    ];
    let b = format_full_block(&knots, 10_000);
    let expected = format!(
        "{FULL_INTRO}\n### Preferences\n- likes tea (confirmed)\n\n### Tasks\n- [ ] ship it (inferred)\n- [x] old chore (unverified)\n"
    );
    assert_eq!(b, expected);
    assert_eq!(format_full_block(&vec![], 10_000), "");
    // budget: only the intro fits
    assert_eq!(format_full_block(&knots, FULL_INTRO.chars().count() + 5), FULL_INTRO);
}

#[test]
fn baseline_injection_adds_search_hint() {
    let knots = vec![
        knot(5, KnotKind::Fact, "lives in Hangzhou", KnotConfidence::Confirmed, None),
        knot(6, KnotKind::Task, "not shown", KnotConfidence::Confirmed, Some(TaskStatus::Open)),
    ];
    let r = build_injection(&knots, true, true, 10_000, 10_000);
    let baseline = format_baseline_block(&knots, 10_000);
    assert!(baseline.ends_with("### Facts\n- lives in Hangzhou (confirmed)\n"));
    assert!(!baseline.contains("not shown"));
    assert_eq!(
        r.block,
        format!("{baseline}\n\nFor tasks, decisions, procedures, and other long-term memory not listed above, use the memory_search tool with keywords.")
    );
    assert_eq!(r.injected_ids, vec![5, 6]);
    let full = build_injection(&knots, true, false, 10_000, 10_000);
    assert_eq!(full.block, format_full_block(&knots, 10_000));
}

#[test]
fn search_results_text_and_truncation() {
    let hits = vec![
        knot(7, KnotKind::Fact, "x", KnotConfidence::Dream, None),
        knot(-3, KnotKind::Task, "y", KnotConfidence::Confirmed, Some(TaskStatus::Open)),
    ];
    assert_eq!(
        format_search_results(&hits, 1000),
        "Found 2 memories:\n- #7 [fact] x (unverified)\n- #-3 [task] [ ] y (confirmed)\n"
    );
    assert_eq!(
        format_search_results(&hits, 10),
        "Found 2 memories:\n\n(Results truncated; narrow the query or specify kind.)\n"
    );
    assert_eq!(format_search_results(&vec![], 10), "No matching long-term memory found.");
}

#[test]
fn paths_expand_and_join() {
    assert_eq!(join_path("/home/u", ".hi/hi.toml"), "/home/u/.hi/hi.toml");
    assert_eq!(join_path("/home/u/", "x"), "/home/u/x");
    assert_eq!(join_path("/home/u", "/etc/x"), "/etc/x");
    assert_eq!(join_path("", "x"), "x");
    assert_eq!(expand_path("~/proj", "/home/u"), "/home/u/proj");
    assert_eq!(expand_path("~", "/home/u"), "/home/u");
    assert_eq!(expand_path("/abs/p", "/home/u"), "/abs/p");
    assert_eq!(expand_path("~user/x", "/home/u"), "~user/x");
    assert_eq!(normalize_workspace("~/.hi/workspace", "/h"), "/h/.hi/workspace");
    assert_eq!(hi_config_path(Some("/a.toml"), Some("/b.toml"), "/h"), "/a.toml");
    assert_eq!(hi_config_path(None, Some("/b.toml"), "/h"), "/b.toml");
    assert_eq!(hi_config_path(None, None, "/h"), "/h/.hi/hi.toml");
    assert_eq!(data_directory(None, "/h"), "/h/.hi/data");
    assert_eq!(data_directory(Some("~/d"), "/h"), "/h/d");
    assert_eq!(sessions_db_path("/h/.hi/data"), "/h/.hi/data/sessions.db");
}

#[test]
fn permission_patterns() {
    assert!(glob_match("/home/u/proj/a.txt", "~/proj/*", "/home/u"));
    assert!(glob_match("/home/u/proj", "~/proj/*", "/home/u"));
    assert!(!glob_match("/home/u/other/a", "~/proj/*", "/home/u"));
    assert!(glob_match("/a/b", "/a/b", "/h"));
    assert!(!glob_match("/a/bc", "/a/b", "/h"));
    assert_eq!(permission_entry("  ~/src  "), Some("~/src".to_string()));
    assert_eq!(permission_entry(" * "), None);
    assert_eq!(permission_entry("   "), None);
}

#[test]
fn gateway_channel_choices() {
    assert_eq!(default_gateway_channel_id(), "wecom");
    assert_eq!(gateway_channel_default(Some("feishu")), "feishu");
    assert_eq!(gateway_channel_default(Some("slack")), "wecom");
    assert_eq!(gateway_channel_default(Some("nope")), "wecom");
    assert_eq!(gateway_channel_default(None), "wecom");
    let avail: Vec<&str> = available_gateway_channels().iter().map(|c| c.id).collect();
    assert_eq!(avail, vec!["wecom", "feishu", "weixin"]);
    assert_eq!(gateway_channel("telegram").map(|c| c.available), Some(false));
    assert!(gateway_channel("irc").is_none());
}

#[test]
fn schema_mismatch_message() {
    let e = incompatible_error("/d/sessions.db");
    match &e {
        Error::Localized(id, args) => {
            assert_eq!(*id, MessageId::SchemaIncompatible);
            assert_eq!(args.len(), 1);
        }
        Error::Message(_) => panic!("expected a localized error"),
    }
    assert_eq!(
        e.render(Locale::En),
        "sessions.db schema 不兼容（需要 version 1）。请备份后删除 /d/sessions.db 并重新运行 hi（将自动重建）。导出全文: hi session export"
    );
}

fn ai_config(provider: &str, key: &str) -> AiConfig {
    AiConfig {
        default: String::new(),
        providers: StrMap::new(),
        provider: provider.to_string(),
        model: "m".to_string(),
        base_url: None,
        api_key: key.to_string(),
    }
}

#[test]
fn api_key_rules() {
    assert_eq!(ai_config("openai", "  k1 ").llm_api_key().unwrap(), "k1");
    assert_eq!(ai_config("ollama", "").llm_api_key().unwrap(), "");
    assert_eq!(ai_config("codex", "secret").llm_api_key().unwrap(), "");
    match ai_config("openai", "   ").llm_api_key() {
        Err(Error::Localized(id, args)) => {
            assert_eq!(id, MessageId::MissingApiKey);
            assert!(args.is_empty());
        }
        _ => panic!("an empty key must be refused"),
    }
}

#[test]
fn unknown_profile_lists_known_names() {
    let mut cfg = ai_config("openai", "k");
    cfg.providers.insert(
        "main".to_string(),
        AiProviderEntry {
            provider: "openai".to_string(),
            model: "gpt".to_string(),
            base_url: None,
            api_key: "k".to_string(),
        },
    );
    match cfg.activate_provider("b\"x") {
        Err(Error::Message(m)) => assert_eq!(m, "未知模型配置 \"b\\\"x\" — 可用: main"),
        _ => panic!("unknown profile must be refused"),
    }
    assert!(cfg.activate_provider("main").is_ok());
    assert_eq!(cfg.default, "main");
    assert_eq!(cfg.model, "gpt");
}

#[test]
fn extractor_reply_json() {
    assert_eq!(extract_json_text("```json\n[{\"a\":1}]\n```"), Some("[{\"a\":1}]".to_string()));
    assert_eq!(extract_json_text("  ```\n[1]\n``` "), Some("[1]".to_string()));
    assert_eq!(extract_json_text(" [ {\"b\":2} ] "), Some("[ {\"b\":2} ]".to_string()));
    assert_eq!(extract_json_text("```json\n[]\n```"), None);
    assert_eq!(extract_json_text("[]"), None);
    assert_eq!(extract_json_text("   "), None);
}

#[test]
fn content_hash_ignores_spacing() {
    let a = content_hash("likes  green\ttea");
    let b = content_hash(" likes green tea ");
    assert_eq!(a.len(), 16);
    assert!(a.chars().all(|c| c.is_ascii_hexdigit()));
    assert_eq!(a, b);
    assert_ne!(content_hash("likes green tea"), content_hash("likes black tea"));
    let mut hasher = std::collections::hash_map::DefaultHasher::new();
    std::hash::Hash::hash("likes green tea", &mut hasher);
    assert_eq!(a, format!("{:016x}", std::hash::Hasher::finish(&hasher)));
}

#[test]
fn merge_tally_and_task_status() {
    let mut o = MergeOutcome::default();
    o.record(MergeKnotResult::Added);
    o.record(MergeKnotResult::Superseded);
    o.record(MergeKnotResult::Skipped);
    assert_eq!(o, MergeOutcome { added: 2, superseded: 1, skipped: 1 });
    assert_eq!(task_status_for(KnotKind::Task, None), Some(TaskStatus::Open));
    assert_eq!(task_status_for(KnotKind::Task, Some(TaskStatus::Done)), Some(TaskStatus::Done));
    assert_eq!(task_status_for(KnotKind::Fact, Some(TaskStatus::Done)), None);
    assert_eq!(KnotEventType::Superseded.label(), "superseded");
}

#[test]
fn feishu_domain_is_trimmed() {
    let mut c = FeishuConfig::default();
    assert_eq!(c.domain_host(), "open.feishu.cn");
    c.domain = Some("  larksuite.com ".to_string());
    assert_eq!(c.domain_host(), "larksuite.com");
    c.domain = Some("   ".to_string());
    assert_eq!(c.domain_host(), "open.feishu.cn");
}

fn chat(role: Role, text: &str) -> ChatMessage {
    ChatMessage { role, content: text.to_string(), tool_calls: None, tool_call_id: None, reasoning_content: None }
}

#[test]
fn extractor_request_texts() {
    let none = extract_request("m", &[chat(Role::System, "sys"), chat(Role::User, "")], &vec![]);
    assert!(none.is_none());
    let msgs = vec![chat(Role::System, "sys"), chat(Role::User, "I like tea"), chat(Role::Assistant, "ok")];
    let q = extract_request("m1", &msgs, &vec![]).expect("an excerpt");
    assert_eq!(q.model, "m1");
    assert_eq!(q.messages.len(), 2);
    assert_eq!(q.messages[0].role, Role::System);
    assert_eq!(q.messages[0].content, EXTRACT_SYSTEM);
    assert_eq!(q.messages[1].content, "Existing knots: (none)\n\nExcerpt:\nuser: I like tea\nassistant: ok");
    let known = vec![KnotDigest { kind: KnotKind::Preference, content: "tea".into(), content_hash: "ab".into() }];
    let q = extract_request("m1", &msgs, &known).expect("an excerpt");
    assert_eq!(
        q.messages[1].content,
        "Existing knots:\n- [preference] tea (hash=ab)\n\nExcerpt:\nuser: I like tea\nassistant: ok"
    );
}

#[test]
fn existing_knots_block_is_capped() {
    let ks: Vec<KnotDigest> = (0..3)
        .map(|i| KnotDigest { kind: KnotKind::Fact, content: format!("c{i}"), content_hash: format!("h{i}") })
        .collect();
    assert_eq!(format_existing_knots(&ks, 2), "- [fact] c0 (hash=h0)\n- [fact] c1 (hash=h1)");
    assert_eq!(format_existing_knots(&ks, 0), "");
}

#[test]
fn extracted_knot_fields() {
    let k = extracted_knot_from("task", "buy milk".into(), "confirmed", Some("open"), None).expect("valid");
    assert_eq!(k.kind, KnotKind::Task);
    assert_eq!(k.confidence, KnotConfidence::Confirmed);
    assert_eq!(k.task_status, Some(TaskStatus::Open));
    assert_eq!(extracted_knot_from("idea", "x".into(), "confirmed", None, None).err(), Some("unknown variant `idea`".to_string()));
    assert_eq!(extracted_knot_from("fact", "x".into(), "sure", None, None).err(), Some("unknown variant `sure`".to_string()));
    assert_eq!(extracted_knot_from("fact", "x".into(), "dream", Some("later"), None).err(), Some("unknown variant `later`".to_string()));
}

#[test]
fn extracted_knot_drafts() {
    let item = |content: &str, kind, confidence| ExtractedKnot {
        kind,
        content: content.to_string(),
        confidence,
        task_status: None,
        supersedes_content_hash: None,
    };
    assert!(draft_for(&item("   ", KnotKind::Fact, KnotConfidence::Confirmed)).is_none());
    let d = draft_for(&item("  buy milk ", KnotKind::Task, KnotConfidence::Confirmed)).expect("kept");
    assert_eq!(d.content, "buy milk");
    assert!(d.permanent);
    assert_eq!(d.visibility, KnotVisibility::Inject);
    assert_eq!(d.task_status, Some(TaskStatus::Open));
    let d = draft_for(&item("tea", KnotKind::Preference, KnotConfidence::Dream)).expect("kept");
    assert!(!d.permanent);
    assert_eq!(d.task_status, None);
}

#[test]
fn memory_search_query_and_hits() {
    assert!(matches!(search_query_and_limit("  ", None, 5), Err(Error::Message(m)) if m == "memory_search: query 不能为空"));
    assert_eq!(search_query_and_limit(" tea ", None, 5).ok(), Some(("tea".to_string(), 5)));
    assert_eq!(search_query_and_limit("tea", Some(80), 5).ok(), Some(("tea".to_string(), 50)));
    let kws = vec!["tea".to_string()];
    assert!(search_hit("I LIKE Tea", KnotKind::Preference, None, &kws));
    assert!(!search_hit("I LIKE Tea", KnotKind::Preference, Some(KnotKind::Fact), &kws));
    assert!(!search_hit("coffee", KnotKind::Fact, None, &kws));
    assert!(!search_hit("tea", KnotKind::Fact, None, &vec![]));
}

#[test]
fn hi_toml_text_is_read_and_laid_out() {
    let empty = document_from_text("/h/.hi/hi.toml", None).expect("missing file");
    assert!(empty.entries.is_empty());
    let doc = document_from_text("/h/hi.toml", Some("workspace = \"/w\"\n[ai]\nmodel = \"m\"\ndefault = \"d\"\n"))
        .expect("valid");
    assert_eq!(doc.entries.len(), 2);
    assert_eq!(doc.entries[0].0, "ai");
    match &doc.entries[0].1 {
        TomlItem::Table(t) => {
            assert_eq!(t.entries[0].0, "default");
            assert!(matches!(&t.entries[0].1, TomlItem::Line(l) if l == "default = \"d\""));
        },
        TomlItem::Line(_) => panic!("[ai] is a table"),
    }
    match document_from_text("/h/hi.toml", Some("a = = 1")) {
        Err(Error::Message(m)) => assert!(m.starts_with("parse hi config /h/hi.toml: ")),
        _ => panic!("not TOML"),
    }
    let text = render_toml_text("[ai]\nmodel = \"m\"\n[memory]\nenabled = true\nworkspace = \"x\"\n").expect("valid");
    assert_eq!(text, "[ai]\nmodel = \"m\"\n\n[memory]\nenabled = true\nworkspace = \"x\"\n\n");
    assert!(render_toml_text("[").is_err());
}

#[test]
fn legacy_files_merge_into_one_document() {
    let text = migrated_document(
        Some(("/h/config.toml", "workspace = \"/w\"\n[wecom]\nbot_id = \"b\"\n")),
        Some(("/h/channels.toml", "[wecom]\nsecret = \"s\"\n")),
    )
    .expect("both are TOML");
    assert_eq!(text, "workspace = \"/w\"\n[wecom]\nbot_id = \"b\"\nsecret = \"s\"\n\n");
    assert_eq!(migrated_document(None, None).expect("nothing to merge"), "");
    match migrated_document(Some(("/h/config.toml", "x = 1")), Some(("/h/channels.toml", "[["))) {
        Err(Error::Message(m)) => assert!(m.starts_with("parse legacy /h/channels.toml: ")),
        _ => panic!("channels.toml is not TOML"),
    }
    match migrated_document(Some(("/h/config.toml", "[[")), Some(("/h/channels.toml", "[["))) {
        Err(Error::Message(m)) => assert!(m.starts_with("parse legacy /h/config.toml: ")),
        _ => panic!("config.toml is not TOML"),
    }
}
