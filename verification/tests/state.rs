use hi_core::agent::{
    heal_step, persisted_content_updates, reset_in_memory, rollback_turn, should_extract_after_turn,
    unsaved_messages, ContentUpdate, MessageIds,
};
use hi_core::config::context::ContextConfig;
use hi_core::config::ai::{AiConfig, AiConfigWire, AiProviderEntry, LegacyProviderProfile};
use hi_core::config::channels::{
    apply_legacy_channel_selection, is_account_table_key, needs_legacy_wecom, ChannelsConfig,
};
use hi_core::config::feishu::FeishuConfig;
use hi_core::config::paths::hi_dir;
use hi_core::config::weixin::WeixinConfig;
use hi_core::config::hi_toml::{merge_table, render_document, TomlItem, TomlTable};
use hi_core::config::str_map::StrMap;
use hi_core::config::wecom::WeComConfig;
use hi_core::llm::{ChatMessage, Role};
use hi_core::messages::locale::{detect_system_locale, resolve_locale, Locale};

fn msg(role: Role, text: &str) -> ChatMessage {
    ChatMessage { role, content: text.to_string(), tool_calls: None, tool_call_id: None, reasoning_content: None }
}

#[test]
fn rollback_drops_the_failed_turn() {
    let mut history = vec![msg(Role::System, "sys"), msg(Role::User, "hi"), msg(Role::Assistant, "hello")];
    let before: Vec<String> = history.iter().map(|m| m.content.clone()).collect();
    history.push(msg(Role::User, "next"));
    history.push(msg(Role::Assistant, "partial"));
    let mut ids = MessageIds { ids: vec![1, 2, 3, 4, 5] };
    let (persisted, dropped) = rollback_turn(&mut history, &mut ids, 5, 3);
    let after: Vec<String> = history.iter().map(|m| m.content.clone()).collect();
    assert_eq!(after, before);
    assert_eq!(ids.ids, vec![1, 2, 3]);
    assert_eq!(persisted, 3);
    assert_eq!(dropped, vec![4, 5]);
    // nothing to roll back
    let (p, d) = rollback_turn(&mut history, &mut ids, 2, 3);
    assert_eq!((p, d.len()), (2, 0));
}

#[test]
fn content_updates_and_unsaved_messages() {
    let history = vec![msg(Role::System, "sys"), msg(Role::User, "a"), msg(Role::Assistant, "b")];
    let ids = MessageIds { ids: vec![10, 11, 12] };
    let updates = persisted_content_updates(&history, &ids, 2);
    assert_eq!(updates.len(), 2);
    assert!(matches!(&updates[0], ContentUpdate::System(c) if c == "sys"));
    assert!(matches!(&updates[1], ContentUpdate::Message(11, c) if c == "a"));
    let unsaved = unsaved_messages(&history, 1);
    assert_eq!(unsaved.iter().map(|m| m.content.as_str()).collect::<Vec<_>>(), vec!["a", "b"]);
    assert!(unsaved_messages(&history, 3).is_empty());
}

#[test]
fn extraction_after_turn_needs_a_cue_or_size() {
    let cue = vec![msg(Role::User, "Remember my email")];
    let plain = vec![msg(Role::User, "ok")];
    assert!(should_extract_after_turn(true, true, 200, &cue));
    assert!(!should_extract_after_turn(true, true, 200, &plain));
    assert!(should_extract_after_turn(true, false, 200, &plain));
    assert!(!should_extract_after_turn(false, false, 0, &cue));
    assert!(!should_extract_after_turn(true, false, 0, &[]));
    let long = vec![msg(Role::User, &"x".repeat(4000))];
    assert!(should_extract_after_turn(true, true, 200, &long));
}

fn line(s: &str) -> TomlItem {
    TomlItem::Line(s.to_string())
}

fn table(entries: Vec<(&str, TomlItem)>) -> TomlTable {
    TomlTable { entries: entries.into_iter().map(|(k, v)| (k.to_string(), v)).collect() }
}

#[test]
fn legacy_files_merge() {
    let mut merged = table(vec![]);
    merge_table(
        &mut merged,
        table(vec![("a", TomlItem::Table(table(vec![("x", line("x = 1")), ("y", line("y = 1"))]))), ("b", line("b = 1"))]),
    );
    merge_table(
        &mut merged,
        table(vec![
            ("a", TomlItem::Table(table(vec![("y", line("y = 2")), ("z", line("z = 2"))]))),
            ("b", TomlItem::Table(table(vec![("q", line("q = 1"))]))),
            ("c", line("c = 3")),
        ]),
    );
    assert_eq!(
        render_document(&merged),
        "[a]\nx = 1\ny = 2\nz = 2\n\n[b]\nq = 1\n\nc = 3\n"
    );
}

fn entry(provider: &str, model: &str) -> AiProviderEntry {
    AiProviderEntry { provider: provider.into(), model: model.into(), base_url: None, api_key: String::new() }
}

#[test]
fn ai_settings_from_written_form() {
    let mut providers = StrMap::new();
    providers.insert("main".to_string(), entry("openai-compat", "gpt-4o"));
    let mut profiles = StrMap::new();
    profiles.insert(
        "ollama".to_string(),
        LegacyProviderProfile { model: "qwen".into(), base_url: Some("http://l".into()), api_key: String::new() },
    );
    profiles.insert(
        "main".to_string(),
        LegacyProviderProfile { model: "ignored".into(), base_url: None, api_key: String::new() },
    );
    let ai = AiConfig::from_wire(AiConfigWire {
        default: "main".into(),
        providers,
        profiles,
        provider: String::new(),
        model: String::new(),
        base_url: None,
        api_key: String::new(),
    });
    assert_eq!(ai.default, "main");
    assert_eq!(ai.model, "gpt-4o");
    let names: Vec<&str> = ai.providers.entries.iter().map(|(k, _)| k.as_str()).collect();
    assert_eq!(names, vec!["main", "ollama"]);
    assert_eq!(ai.providers.entries[1].1.provider, "ollama");
    assert_eq!(ai.providers.entries[1].1.model, "qwen");

    // older flat fields only
    let flat = AiConfig::from_wire(AiConfigWire {
        default: String::new(),
        providers: StrMap::new(),
        profiles: StrMap::new(),
        provider: "codex".into(),
        model: "m1".into(),
        base_url: None,
        api_key: String::new(),
    });
    assert_eq!(flat.default, "codex");
    assert_eq!(flat.providers.entries.len(), 1);
    assert_eq!(flat.providers.entries[0].1.model, "m1");
    let saved = flat.providers_for_save();
    assert_eq!(saved.entries.len(), 1);
    assert_eq!(saved.entries[0].0, "codex");
}

fn wecom(enabled: bool) -> WeComConfig {
    let mut c = WeComConfig::default();
    c.enabled = enabled;
    c.bot_id = "b".into();
    c
}

#[test]
fn legacy_channel_selection() {
    let mut accounts = StrMap::new();
    accounts.insert("default".to_string(), wecom(true));
    accounts.insert("team".to_string(), wecom(true));
    apply_legacy_channel_selection(&mut accounts, Some(vec!["wecom:team".to_string(), "feishu".to_string()]), None);
    assert_eq!(accounts.entries.iter().map(|(_, c)| c.enabled).collect::<Vec<_>>(), vec![false, true]);
    apply_legacy_channel_selection(&mut accounts, None, Some("wecom".to_string()));
    assert_eq!(accounts.entries.iter().map(|(_, c)| c.enabled).collect::<Vec<_>>(), vec![true, false]);
    apply_legacy_channel_selection(&mut accounts, None, Some(String::new()));
    assert_eq!(accounts.entries.iter().map(|(_, c)| c.enabled).collect::<Vec<_>>(), vec![true, false]);
}

#[test]
fn locale_resolution_order() {
    assert_eq!(detect_system_locale(&vec!["C".into(), "zh_CN.UTF-8".into()]), Locale::Zh);
    assert_eq!(detect_system_locale(&vec![]), Locale::En);
    assert_eq!(resolve_locale(Some("en"), Some("zh"), Locale::Zh), Locale::En);
    assert_eq!(resolve_locale(Some("xx"), Some("zh"), Locale::En), Locale::Zh);
    assert_eq!(resolve_locale(None, None, Locale::En), Locale::En);
    assert_eq!("en_US".parse::<Locale>(), Ok(Locale::En));
}

#[test]
fn account_table_keys() {
    assert!(is_account_table_key("wecom", "team", true));
    assert!(!is_account_table_key("wecom", "team", false));
    assert!(!is_account_table_key("wecom", "allow_from", true));
    assert!(!is_account_table_key("feishu", "domain", true));
    assert!(is_account_table_key("feishu", "secret", true));
    assert!(!is_account_table_key("weixin", "poll_timeout_secs", true));
    assert!(is_account_table_key("weixin", "bot_id", true));
}

#[test]
fn channels_load_falls_back_to_legacy_wecom() {
    let mut channel_wecom = StrMap::new();
    channel_wecom.insert("default".to_string(), WeComConfig::default());
    assert!(needs_legacy_wecom(&channel_wecom));
    let mut legacy = StrMap::new();
    legacy.insert("default".to_string(), wecom(true));
    legacy.insert("empty".to_string(), WeComConfig::default());
    legacy.insert("team".to_string(), wecom(true));
    let mut feishu = StrMap::new();
    feishu.insert("default".to_string(), FeishuConfig::default());
    let c = ChannelsConfig::from_accounts(
        channel_wecom,
        feishu,
        StrMap::new(),
        Some(legacy),
        None,
        Some("wecom:team".to_string()),
    );
    let names: Vec<(&str, bool)> = c.wecom_accounts.entries.iter().map(|(n, c)| (n.as_str(), c.enabled)).collect();
    assert_eq!(names, vec![("default", false), ("team", true)]);
    assert!(c.feishu_accounts.entries.is_empty());
    assert!(c.weixin_accounts.entries.is_empty());
}

#[test]
fn channels_load_keeps_channel_wecom() {
    let mut channel_wecom = StrMap::new();
    channel_wecom.insert("main".to_string(), wecom(false));
    assert!(!needs_legacy_wecom(&channel_wecom));
    let c = ChannelsConfig::from_accounts(channel_wecom, StrMap::new(), StrMap::new(), None, None, None);
    assert_eq!(c.wecom_accounts.entries.len(), 1);
    assert_eq!(c.wecom_accounts.entries[0].0, "main");
    assert!(!c.wecom_accounts.entries[0].1.enabled);
}

#[test]
fn channels_saving_drops_empty_accounts() {
    let mut c = ChannelsConfig::new();
    c.wecom_accounts.insert("x".to_string(), WeComConfig::default());
    c.weixin_accounts.insert("default".to_string(), WeixinConfig::default());
    assert!(c.for_saving().is_none());
    let mut d = ChannelsConfig::new();
    d.wecom_accounts.insert("x".to_string(), WeComConfig::default());
    d.wecom_accounts.insert("y".to_string(), wecom(true));
    let saved = d.for_saving().expect("one account left");
    assert_eq!(saved.wecom_accounts.entries.len(), 1);
    assert_eq!(saved.wecom_accounts.entries[0].0, "y");
}

#[test]
fn config_directory_and_channels_file() {
    assert_eq!(hi_dir(Some("/etc/hi/hi.toml"), None, "/home/u"), "/etc/hi");
    assert_eq!(hi_dir(None, Some("conf/hi.toml"), "/home/u"), "conf");
    assert_eq!(hi_dir(None, None, "/home/u"), "/home/u/.hi");
    assert_eq!(hi_dir(Some("/"), None, "/home/u"), "/home/u/.hi");
    assert_eq!(ChannelsConfig::channels_path(None, Some("/x/c.toml"), "/home/u"), "/x/c.toml");
    assert_eq!(ChannelsConfig::channels_path(None, None, "/home/u"), "/home/u/.hi/hi.toml");
}

#[test]
fn in_memory_reset_keeps_the_system_line() {
    let mut history = vec![msg(Role::System, "sys"), msg(Role::User, "a"), msg(Role::Assistant, "b")];
    let mut ids = MessageIds { ids: vec![1, 2, 3] };
    assert_eq!(reset_in_memory(&mut history, &mut ids), 1);
    assert_eq!(history.len(), 1);
    assert_eq!(history[0].content, "sys");
    assert_eq!(ids.ids, vec![1]);
    let mut history = vec![msg(Role::User, "a")];
    let mut ids = MessageIds { ids: vec![7] };
    assert_eq!(reset_in_memory(&mut history, &mut ids), 0);
    assert!(history.is_empty());
    assert!(ids.ids.is_empty());
}

#[test]
fn healing_goes_on_only_while_it_gains() {
    let mut config = ContextConfig::default();
    config.enabled = true;
    config.compress_at_k = 1;
    let history = vec![msg(Role::System, "s"), msg(Role::User, &"x".repeat(8000))];
    let tokens = heal_step(&history, &config, usize::MAX).expect("over budget");
    assert_eq!(tokens, 2001);
    assert_eq!(heal_step(&history, &config, tokens), None);
    let small = vec![msg(Role::User, "hi")];
    assert_eq!(heal_step(&small, &config, usize::MAX), None);
    config.enabled = false;
    assert_eq!(heal_step(&history, &config, usize::MAX), None);
}

#[test]
fn redacted_ai_settings_mask_every_key() {
    let mut providers = StrMap::new();
    let mut keyed = entry("openai-compat", "gpt-4o");
    keyed.api_key = "sk-secret".into();
    providers.insert("main".to_string(), keyed);
    providers.insert("local".to_string(), entry("ollama", "qwen"));
    let ai = AiConfig {
        default: "main".into(),
        providers,
        provider: "openai-compat".into(),
        model: "gpt-4o".into(),
        base_url: Some("http://x".into()),
        api_key: "sk-secret".into(),
    };
    let r = ai.redacted();
    assert_eq!(r.api_key, "***");
    assert_eq!(r.default, "main");
    assert_eq!(r.base_url, Some("http://x".to_string()));
    assert_eq!(r.providers.entries.len(), 2);
    assert_eq!(r.providers.entries[0].0, "local");
    assert_eq!(r.providers.entries[0].1.api_key, "");
    assert_eq!(r.providers.entries[1].1.api_key, "***");
    assert_eq!(r.providers.entries[1].1.model, "gpt-4o");
    assert_eq!(ai.api_key, "sk-secret");
}
