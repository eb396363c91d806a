//! English message texts.
use vstd::prelude::*;
use crate::messages::catalog::{
    arg_is_empty, arg_spec, debug_str, pad_end_spec, pad_start_spec, push_arg, push_debug,
    push_padded,
};
use crate::messages::id::MessageId;
use crate::text::{push_str, to_string, views};

verus! {

pub open spec fn message_en(id: MessageId, args: Seq<Seq<char>>) -> Seq<char> {
    match id {
        MessageId::MissingApiKey => Seq::<char>::empty() + "missing LLM api_key in ~/.hi/hi.toml — set [ai.providers.<name>] or run `hi setup`"@,
        MessageId::UnknownAiProvider => Seq::<char>::empty() + "unknown ai.provider "@ + debug_str(arg_spec(args, 0)) + " — use openai-compat | codex | anthropic | ollama"@,
        MessageId::UnknownModel => Seq::<char>::empty() + "unknown model "@ + debug_str(arg_spec(args, 0)) + " — available: "@ + arg_spec(args, 1),
        MessageId::ParseHiConfig => Seq::<char>::empty() + "parse hi config: "@ + arg_spec(args, 0),
        MessageId::SerializeHiConfig => Seq::<char>::empty() + "serialize hi config failed"@,
        MessageId::ReadCurrentDir => Seq::<char>::empty() + "read current directory: "@ + arg_spec(args, 0),
        MessageId::CreateWorkspace => Seq::<char>::empty() + "create workspace "@ + arg_spec(args, 0) + ": "@ + arg_spec(args, 1),
        MessageId::InvalidWorkspace => Seq::<char>::empty() + "invalid workspace "@ + arg_spec(args, 0) + ": "@ + arg_spec(args, 1),
        MessageId::ConfigLock => Seq::<char>::empty() + "config lock: "@ + arg_spec(args, 0),
        MessageId::ProviderLock => Seq::<char>::empty() + "provider lock failed"@,
        MessageId::ApprovalPolicyLock => Seq::<char>::empty() + "approval policy lock failed"@,
        MessageId::BuildAgent => Seq::<char>::empty() + "build agent: "@ + arg_spec(args, 0),
        MessageId::ConfigNotSetup => Seq::<char>::empty() + "not configured yet — run `hi setup` first"@,
        MessageId::HiTomlPath => Seq::<char>::empty() + "hi.toml: "@ + arg_spec(args, 0),
        MessageId::ChannelsNotConfigured => Seq::<char>::empty() + "no message channels configured — run `hi gateway setup`, then `hi gateway`"@,
        MessageId::UnknownChannelId => Seq::<char>::empty() + "unknown channel "@ + debug_str(arg_spec(args, 0)) + " — available: wecom, feishu, weixin and :<account> forms"@,
        MessageId::WecomAccountMissing => Seq::<char>::empty() + "wecom account "@ + debug_str(arg_spec(args, 0)) + " not configured — add [channels.wecom] or [channels.wecom."@ + arg_spec(args, 0) + "] in hi.toml"@,
        MessageId::FeishuAccountMissing => Seq::<char>::empty() + "feishu account "@ + debug_str(arg_spec(args, 0)) + " not configured — add [channels.feishu] or [channels.feishu."@ + arg_spec(args, 0) + "] in hi.toml"@,
        MessageId::WeixinAccountMissing => Seq::<char>::empty() + "weixin account "@ + debug_str(arg_spec(args, 0)) + " not configured — add [channels.weixin] or [channels.weixin."@ + arg_spec(args, 0) + "] in hi.toml"@,
        MessageId::MissingWecomSecret => Seq::<char>::empty() + "missing wecom secret — run `hi gateway setup` to fill secret"@,
        MessageId::MissingWecomBotId => Seq::<char>::empty() + "wecom.bot_id is empty — create a WeCom smart bot and set bot_id"@,
        MessageId::MissingFeishuAppId => Seq::<char>::empty() + "feishu.app_id is empty — run `hi gateway setup`"@,
        MessageId::MissingFeishuAppSecret => Seq::<char>::empty() + "feishu.app_secret is empty — run `hi gateway setup`"@,
        MessageId::FeishuAllowlistEmpty => Seq::<char>::empty() + "feishu allowlist is empty: no one can message the bot — set allow_from in hi.toml or run `hi gateway setup`"@,
        MessageId::WecomAllowlistEmpty => Seq::<char>::empty() + "wecom allowlist is empty: no one can message the bot — set allow_from in hi.toml or run `hi gateway setup`"@,
        MessageId::WecomDmPolicyOpenWarn => Seq::<char>::empty() + "wecom dm_policy=open: all users can trigger the agent; use allowlist in production"@,
        MessageId::FeishuDmPolicyOpenWarn => Seq::<char>::empty() + "feishu dm_policy=open: all users can trigger the agent; use allowlist in production"@,
        MessageId::DefaultWelcome => Seq::<char>::empty() + "Hi, I'm hi — your ultra-lightweight personal AI assistant. How can I help?"@,
        MessageId::SchemaIncompatible => Seq::<char>::empty() + arg_spec(args, 0),
        MessageId::MemorySearchDisabled => Seq::<char>::empty() + "memory_search: memory disabled or not persisted"@,
        MessageId::MemoryQueryEmpty => Seq::<char>::empty() + "memory_search: query must not be empty"@,
        MessageId::ToolIterationLimit => Seq::<char>::empty() + "tool-call limit reached ("@ + arg_spec(args, 0) + ") and no summary could be generated — narrow the task or raise context.max_tool_iterations"@,
        MessageId::MemoryRecorded => Seq::<char>::empty() + "memory recorded #"@ + arg_spec(args, 0),
        MessageId::MemoryDuplicate => Seq::<char>::empty() + "memory already exists (duplicate skipped)"@,
        MessageId::EmptyChannelReply => Seq::<char>::empty() + "empty reply from agent"@,
        MessageId::EmergencyTrimSummary => Seq::<char>::empty() + "emergency trim: shortened "@ + arg_spec(args, 0) + " message(s)"@,
        MessageId::ExtractKnotsFailed => Seq::<char>::empty() + "knot extraction failed: "@ + arg_spec(args, 0),
        MessageId::ApprovalPromptBash => Seq::<char>::empty() + "⚠️ Confirmation required — reply approve/confirm or cancel:\nbash: "@ + arg_spec(args, 0) + "\n→ add "@ + arg_spec(args, 1),
        MessageId::ApprovalPromptFile => Seq::<char>::empty() + "⚠️ Confirmation required — reply approve/confirm or cancel:\n"@ + arg_spec(args, 0) + ": "@ + arg_spec(args, 1) + "\n→ add "@ + arg_spec(args, 2),
        MessageId::ApprovalPromptGeneric => Seq::<char>::empty() + "⚠️ Confirmation required — reply approve/confirm or cancel:\n"@ + arg_spec(args, 0) + ": "@ + arg_spec(args, 1) + "\n→ add "@ + arg_spec(args, 2),
        MessageId::GatewayThinking => Seq::<char>::empty() + "Thinking…"@,
        MessageId::GatewayBusy => Seq::<char>::empty() + "Still processing your last message — please wait…"@,
        MessageId::GatewayTurnAck => Seq::<char>::empty() + "Got it — thinking…"@,
        MessageId::GatewayProcessFailed => Seq::<char>::empty() + "Something went wrong: "@ + arg_spec(args, 0) + "\nPlease try again later."@,
        MessageId::GatewayUnsupportedMessage => Seq::<char>::empty() + "Unsupported "@ + arg_spec(args, 0) + " message — please send text."@,
        MessageId::GatewayCheckOkWecom => Seq::<char>::empty() + "WeCom gateway check OK"@,
        MessageId::GatewayCheckOkFeishu => Seq::<char>::empty() + "Feishu gateway check OK"@,
        MessageId::GatewayCheckOkWeixin => Seq::<char>::empty() + "Weixin iLink gateway check OK"@,
        MessageId::GatewayCheckOkGeneric => Seq::<char>::empty() + "Gateway check OK"@,
        MessageId::GatewayStarted => Seq::<char>::empty() + "gateway started (pid "@ + arg_spec(args, 0) + ")"@,
        MessageId::GatewayLogsDir => Seq::<char>::empty() + "logs: "@ + arg_spec(args, 0),
        MessageId::GatewayStopHint => Seq::<char>::empty() + "stop: hi gateway stop"@,
        MessageId::GatewayNotRunning => Seq::<char>::empty() + "gateway is not running"@,
        MessageId::GatewayStopped => Seq::<char>::empty() + "gateway stopped (pid "@ + arg_spec(args, 0) + ")"@,
        MessageId::GatewayForceStopped => Seq::<char>::empty() + "gateway force-stopped (pid "@ + arg_spec(args, 0) + ")"@,
        MessageId::GatewayPidFile => Seq::<char>::empty() + "pid file: "@ + arg_spec(args, 0),
        MessageId::GatewayWorkspace => Seq::<char>::empty() + "workspace: "@ + arg_spec(args, 0),
        MessageId::GatewayChannels => Seq::<char>::empty() + "channels: "@ + arg_spec(args, 0),
        MessageId::GatewayChannelsNone => Seq::<char>::empty() + "channels: (none — run `hi gateway setup`)"@,
        MessageId::GatewayStatusRunning => Seq::<char>::empty() + "status: running (pid "@ + arg_spec(args, 0) + ")"@,
        MessageId::GatewayStatusStopped => Seq::<char>::empty() + "status: stopped"@,
        MessageId::GatewayRecentLog => Seq::<char>::empty() + "recent log: "@ + arg_spec(args, 0),
        MessageId::GatewayReloadSent => Seq::<char>::empty() + "notified gateway to reload hi.toml ([ai], [tools.approvals]) (pid "@ + arg_spec(args, 0) + ")"@,
        MessageId::GatewayStartFailed => Seq::<char>::empty() + "failed to start gateway: "@ + arg_spec(args, 0),
        MessageId::GatewayPidParseFailed => Seq::<char>::empty() + "cannot parse gateway pid: "@ + arg_spec(args, 0),
        MessageId::GatewayStopSignalFailed => Seq::<char>::empty() + "failed to send stop signal (pid "@ + arg_spec(args, 0) + ")"@,
        MessageId::GatewayStopFailed => Seq::<char>::empty() + "failed to stop gateway (pid "@ + arg_spec(args, 0) + ")"@,
        MessageId::GatewayReloadUnixOnly => Seq::<char>::empty() + "gateway reload is Unix-only for now — use `hi gateway restart`"@,
        MessageId::GatewayReloadSignalFailed => Seq::<char>::empty() + "failed to send reload signal (pid "@ + arg_spec(args, 0) + ")"@,
        MessageId::GatewayRecentLogLine => Seq::<char>::empty() + "recent log: "@ + arg_spec(args, 0),
        MessageId::ChatBanner => Seq::<char>::empty() + "hi chat — Enter to send (/quit /reset /compact) | session="@ + arg_spec(args, 0) + " | model="@ + arg_spec(args, 1) + " | cwd="@ + arg_spec(args, 2),
        MessageId::ContextReset => Seq::<char>::empty() + "context cleared (full transcript kept in DB — use `hi session show` to view)"@,
        MessageId::ModelSlashTuiOnly => Seq::<char>::empty() + "/model is TUI-only — use `hi` or `hi tui`"@,
        MessageId::UnknownChatArg => Seq::<char>::empty() + "unknown argument `"@ + arg_spec(args, 0) + "`. Single turn: `hi chat word1 word2 …`; REPL: `hi chat`"@,
        MessageId::SessionListHeader => Seq::<char>::empty() + arg_spec(args, 0) + " session(s)"@,
        MessageId::SessionListRow => Seq::<char>::empty() + pad_end_spec(arg_spec(args, 0), 24) + " "@ + pad_start_spec(arg_spec(args, 1), 8) + " "@ + pad_start_spec(arg_spec(args, 2), 8) + "  "@ + arg_spec(args, 3),
        MessageId::SessionEmpty => Seq::<char>::empty() + "(no sessions)"@,
        MessageId::SessionNotFound => Seq::<char>::empty() + "empty session or not found: "@ + arg_spec(args, 0),
        MessageId::SessionExported => Seq::<char>::empty() + "exported "@ + arg_spec(args, 0) + " message(s) → "@ + arg_spec(args, 1),
        MessageId::SessionDeleted => Seq::<char>::empty() + "deleted session "@ + arg_spec(args, 0) + " and all messages"@,
        MessageId::SessionPurgeNeedConfirm => Seq::<char>::empty() + "refused: add --confirm to permanently delete session "@ + arg_spec(args, 0),
        MessageId::CompressionListHeader => Seq::<char>::empty() + "compression events"@,
        MessageId::CompressionRow => Seq::<char>::empty() + "#"@ + arg_spec(args, 0) + "  msgs "@ + arg_spec(args, 1) + ".."@ + arg_spec(args, 2) + "  ("@ + arg_spec(args, 3) + " rows)  "@ + arg_spec(args, 4),
        MessageId::CompressionDetailHeader => Seq::<char>::empty() + "compression #"@ + arg_spec(args, 0),
        MessageId::CompressionDetailSummary => Seq::<char>::empty() + arg_spec(args, 0),
        MessageId::MemoryListEmpty => Seq::<char>::empty() + "(no knots, owner="@ + arg_spec(args, 0) + ")"@,
        MessageId::MemoryAdded => Seq::<char>::empty() + "knot added #"@ + arg_spec(args, 0),
        MessageId::MemoryForgotten => Seq::<char>::empty() + "knot forgotten #"@ + arg_spec(args, 0),
        MessageId::MemoryReinforced => Seq::<char>::empty() + "knot reinforced #"@ + arg_spec(args, 0),
        MessageId::MemoryExtractNone => Seq::<char>::empty() + "session "@ + arg_spec(args, 0) + " has no in_context messages to extract"@,
        MessageId::MemoryExtractDone => Seq::<char>::empty() + "extraction done: added "@ + arg_spec(args, 0) + ", skipped "@ + arg_spec(args, 1) + ", superseded "@ + arg_spec(args, 2),
        MessageId::MemoryListRow => Seq::<char>::empty() + pad_start_spec(arg_spec(args, 0), 6) + "  "@ + pad_end_spec(arg_spec(args, 1), 12) + " "@ + pad_end_spec(arg_spec(args, 2), 10) + " "@ + pad_start_spec(arg_spec(args, 3), 5) + "  "@ + arg_spec(args, 4),
        MessageId::MemoryDisabledInConfig => Seq::<char>::empty() + "[memory].enabled = false — enable memory in hi.toml"@,
        MessageId::MemoryUnknownKind => Seq::<char>::empty() + "unknown kind: "@ + arg_spec(args, 0) + " (preference|fact|decision|task|procedure)"@,
        MessageId::LlmHttpError => if arg_spec(args, 1).len() == 0 {
            Seq::<char>::empty() + "LLM API request failed (HTTP "@ + arg_spec(args, 0) + "). "@ + arg_spec(args, 2)
        } else {
            Seq::<char>::empty() + "LLM API request failed (HTTP "@ + arg_spec(args, 0) + "): "@ + arg_spec(args, 1) + "\n"@ + arg_spec(args, 2)
        },
        MessageId::LlmTransportError => Seq::<char>::empty() + "cannot reach LLM service — check network, proxy, and base_url in hi.toml.\nDetails: "@ + arg_spec(args, 0),
        MessageId::LlmReadBodyError => Seq::<char>::empty() + "failed to read LLM response — connection may have dropped.\nDetails: "@ + arg_spec(args, 0),
        MessageId::LlmParseError => Seq::<char>::empty() + "LLM returned an unparseable response — service or model name may be wrong.\nDetails: "@ + arg_spec(args, 0),
        MessageId::LlmStreamError => Seq::<char>::empty() + "LLM stream read error — connection may have dropped.\nDetails: "@ + arg_spec(args, 0),
        MessageId::AnthropicNeedsApiKey => Seq::<char>::empty() + "Anthropic requires an API key — run `hi setup`"@,
        MessageId::StdinApprovalHeader => Seq::<char>::empty() + "⚠️  Confirmation required:"@,
        MessageId::StdinApprovalPrompt => Seq::<char>::empty() + "Approve? [y/N]: "@,
        MessageId::WizardWritten => Seq::<char>::empty() + "written to "@ + arg_spec(args, 0),
        MessageId::WizardFinishSteps => Seq::<char>::empty() + arg_spec(args, 0),
        MessageId::WizardConfigPathLine => Seq::<char>::empty() + "Config file: "@ + arg_spec(args, 0),
        MessageId::WizardSelectNumberPrompt => Seq::<char>::empty() + "Choose ["@ + arg_spec(args, 0) + "]"@,
        MessageId::WizardWriteFailed => Seq::<char>::empty() + "write failed"@,
        MessageId::WizardFinishTitle => Seq::<char>::empty() + "Done"@,
        MessageId::WizardCancelled => Seq::<char>::empty() + "setup wizard cancelled"@,
        MessageId::SetupTitle => Seq::<char>::empty() + "hi · setup wizard"@,
        MessageId::SetupUpdateTitle => Seq::<char>::empty() + "hi · update configuration"@,
        MessageId::SetupNotePath => Seq::<char>::empty() + "Writes to "@ + arg_spec(args, 0) + ".\nLLM is required; message channels are optional (hi gateway setup later).\nSecrets stay on this machine — do not commit to git.\nPress Enter to keep current values."@,
        MessageId::SetupNoteRepeat => Seq::<char>::empty() + "Press Enter to keep the current value; menus with «back» let you return."@,
        MessageId::SetupSummaryProvider => Seq::<char>::empty() + "Provider: "@ + arg_spec(args, 0),
        MessageId::SetupSummaryModel => Seq::<char>::empty() + "Model: "@ + arg_spec(args, 0),
        MessageId::SetupSummaryWorkspace => Seq::<char>::empty() + "Gateway workspace: "@ + arg_spec(args, 0),
        MessageId::SetupSummaryApiKeySet => Seq::<char>::empty() + "API Key: set"@,
        MessageId::SetupSummaryApiKeyMissing => Seq::<char>::empty() + "API Key: not set"@,
        MessageId::SetupWorkspaceNote => Seq::<char>::empty() + "Gateway workspace is for remote message channels.\nhi / hi tui / hi chat use the shell cwd, not this path."@,
        MessageId::SetupWorkspacePrompt => Seq::<char>::empty() + "Gateway workspace"@,
        MessageId::SetupProviderPrompt => Seq::<char>::empty() + "Choose LLM provider"@,
        MessageId::SetupOllamaUrlPrompt => Seq::<char>::empty() + "Ollama URL (without /v1 suffix)"@,
        MessageId::SetupBaseUrlPrompt => Seq::<char>::empty() + "API base_url (empty = provider default)"@,
        MessageId::SetupDeepseekKeyNote => Seq::<char>::empty() + "DeepSeek API Key\nGet one at https://platform.deepseek.com/api_keys\nDocs: https://api-docs.deepseek.com/"@,
        MessageId::SetupModelPrompt => Seq::<char>::empty() + "Choose model"@,
        MessageId::SetupModelCustom => Seq::<char>::empty() + "Custom model name"@,
        MessageId::SetupModelFetching => Seq::<char>::empty() + "Fetching available models…"@,
        MessageId::SetupModelFetchDone => Seq::<char>::empty() + "Fetched "@ + arg_spec(args, 0) + " models"@,
        MessageId::SetupModelFetchFailedTitle => Seq::<char>::empty() + "Failed to fetch model list"@,
        MessageId::SetupModelFetchFailedNote => Seq::<char>::empty() + "Falling back to built-in list / manual input.\nDetail: "@ + arg_spec(args, 0),
        MessageId::SetupApiKeyPrompt => Seq::<char>::empty() + "API Key"@,
        MessageId::SetupSaving => Seq::<char>::empty() + "Saving configuration…"@,
        MessageId::SetupFinishNoGateway => Seq::<char>::empty() + "Configuration saved.\n\n  hi chat hello          try a chat\n  hi                     terminal UI\n  hi gateway setup       add channels later\n  hi config              view config (secrets redacted)\n\nTool approval rules were written to hi.toml; runtime grants append automatically."@,
        MessageId::SetupFinishWithGateway => Seq::<char>::empty() + "Configuration saved.\n\n  hi chat hello          local chat\n  hi gateway --check     connection check\n  hi gateway             start gateway\n  hi gateway setup       add or update channels\n  hi config              view config (secrets redacted)\n\nGateway tools run in the workspace directory; local chat/tui use the shell cwd.\nTool approval rules were written to hi.toml; runtime grants append automatically."@,
        MessageId::NoteTitleSetup => Seq::<char>::empty() + "Setup"@,
        MessageId::NoteTitleLlm => Seq::<char>::empty() + "LLM"@,
        MessageId::NoteTitleDeepseekApiKey => Seq::<char>::empty() + "DeepSeek API Key"@,
        MessageId::SetupCurrentSummaryTitle => Seq::<char>::empty() + "Current configuration"@,
        MessageId::SetupSummaryChannels => Seq::<char>::empty() + "Channels: "@ + arg_spec(args, 0),
        MessageId::SetupSummaryMaskedKey => Seq::<char>::empty() + "API Key: set (****)"@,
        MessageId::SetupLlmSummaryBody => Seq::<char>::empty() + "Provider: "@ + arg_spec(args, 0) + "\nModel: "@ + arg_spec(args, 1) + "\n"@ + arg_spec(args, 2) + "\n\nContinue to message channels →"@,
        MessageId::SetupCodexNotLoggedInTitle => Seq::<char>::empty() + "OpenAI Codex not signed in"@,
        MessageId::SetupCodexSkippedTitle => Seq::<char>::empty() + "Codex skipped"@,
        MessageId::SetupCodexSkippedNote => Seq::<char>::empty() + "Did not switch to Codex this time — pick another provider.\nAfter `codex login`, choose OpenAI Codex again."@,
        MessageId::SetupCodexModelPrompt => Seq::<char>::empty() + "Choose Codex model"@,
        MessageId::SetupCodexLoginHint => Seq::<char>::empty() + "No local Codex credentials found:\n  "@ + arg_spec(args, 0) + "\n\nSign in with the OpenAI Codex CLI (ChatGPT account):\n  codex login\n\nThen re-run `hi setup` and choose OpenAI Codex."@,
        MessageId::ProviderDeepseekHint => Seq::<char>::empty() + "Official API (platform.deepseek.com)"@,
        MessageId::ProviderOpenaiCompatLabel => Seq::<char>::empty() + "OpenAI-compatible API"@,
        MessageId::ProviderOpenaiCompatHint => Seq::<char>::empty() + "OpenAI, Moonshot, self-hosted OpenAI-compatible endpoints"@,
        MessageId::ProviderCodexHint => Seq::<char>::empty() + "Reuse local Codex CLI login (ChatGPT) — no API key"@,
        MessageId::ProviderOllamaLabel => Seq::<char>::empty() + "Ollama (local)"@,
        MessageId::ProviderOllamaHint => Seq::<char>::empty() + "Runs on this machine — no API key"@,
        MessageId::ModelHintFlagship => Seq::<char>::empty() + "Flagship"@,
        MessageId::ModelHintReasonerDeprecated => Seq::<char>::empty() + "Reasoning mode, deprecated 2026-07"@,
        MessageId::ModelHintDeprecatedJuly2026 => Seq::<char>::empty() + "Legacy, deprecated 2026-07"@,
        MessageId::ModelHintSonnet4Recommended => Seq::<char>::empty() + "Sonnet 4 (recommended)"@,
        MessageId::ModelBackToProviderLabel => Seq::<char>::empty() + "← Back to provider list"@,
        MessageId::ModelBackToProviderHint => Seq::<char>::empty() + "Return to provider menu"@,
        MessageId::ModelCustomLabel => Seq::<char>::empty() + "Custom model name…"@,
        MessageId::ModelCustomHint => Seq::<char>::empty() + "Type model name manually"@,
        MessageId::SetupModelNamePrompt => Seq::<char>::empty() + "Model name (model)"@,
        MessageId::GatewaySetupTitle => Seq::<char>::empty() + "hi · message channel setup"@,
        MessageId::GatewaySetupUpdateTitle => Seq::<char>::empty() + "hi · update message channels"@,
        MessageId::GatewaySetupNote => Seq::<char>::empty() + "Writes channel settings to "@ + arg_spec(args, 0) + ".\nUse `hi setup` for LLM; this wizard adds or updates channels.\nPress Enter to keep current values."@,
        MessageId::GatewaySetupChannelPrompt => Seq::<char>::empty() + "Choose message channel"@,
        MessageId::GatewaySetupWecomCredsNote => Seq::<char>::empty() + "WeCom: get Bot ID and Secret from Admin Console → Smart Bot → long-connection mode.\nSecret is shown once — keep it safe and out of git."@,
        MessageId::GatewaySetupBotIdPrompt => Seq::<char>::empty() + "Bot ID (wecom.bot_id)"@,
        MessageId::GatewaySetupSecretPrompt => Seq::<char>::empty() + "Bot Secret (wecom.secret)"@,
        MessageId::GatewaySetupAllowlistPrompt => Seq::<char>::empty() + "Enable DM allowlist?"@,
        MessageId::GatewaySetupAllowlistUsersPrompt => Seq::<char>::empty() + "Allowed user IDs ("@ + arg_spec(args, 0) + ", comma-separated, at least one)"@,
        MessageId::GatewaySetupOpenModeNote => Seq::<char>::empty() + "Open mode: anyone can trigger the agent.\nUse only for dev; switch back to allowlist for production."@,
        MessageId::GatewaySetupWelcomePrompt => Seq::<char>::empty() + "Welcome message (empty = system default)"@,
        MessageId::GatewaySetupSaving => Seq::<char>::empty() + "Saving configuration…"@,
        MessageId::GatewaySetupFinish => Seq::<char>::empty() + "Channel configuration saved.\n\nNext steps:\n  hi gateway --check    connection check\n  hi gateway            start gateway\n  hi config             view config (secrets redacted)"@,
        MessageId::GatewaySetupNeedBaseConfig => Seq::<char>::empty() + "Complete base setup first:\n  hi setup\n\nConfig file: "@ + arg_spec(args, 0),
        MessageId::GatewaySetupNoChannels => Seq::<char>::empty() + "No message channels available in this build"@,
        MessageId::GatewaySetupFeishuCredsNote => Seq::<char>::empty() + "Feishu: create an app at https://open.feishu.cn/app,\nenable bot, subscribe to im.message.receive_v1, use long-connection events.\nPermissions: DM, group @ messages (or all group messages), send messages.\nAdd the bot to target groups; keep App Secret out of git."@,
        MessageId::GatewaySetupWeixinCredsNote => Seq::<char>::empty() + "Personal WeChat iLink (experimental):\n1. WeChat 8.0.70+ (iOS) / 8.0.69+ (Android)\n2. Me → Settings → Plugins → enable iLink\n3. This wizard shows a QR code for authorization\n4. Prefer a secondary account; keep bot_token out of git\nSee docs/guides/weixin-ilink-integration.md"@,
        MessageId::GatewaySetupGenericCredsNote => Seq::<char>::empty() + "Prepare credentials per your platform documentation."@,
        MessageId::GatewaySetupFeishuAppIdPrompt => Seq::<char>::empty() + "App ID (feishu.app_id)"@,
        MessageId::GatewaySetupFeishuSecretPrompt => Seq::<char>::empty() + "App Secret (feishu.app_secret)"@,
        MessageId::GatewaySetupFeishuDomainPrompt => Seq::<char>::empty() + "API domain (empty = open.feishu.cn; Lark international = open.larksuite.com)"@,
        MessageId::GatewaySetupFeishuMentionPrompt => Seq::<char>::empty() + "Group chat: reply only when @mentioned (mention_enabled, default true)?"@,
        MessageId::GatewaySetupFeishuMentionOnTitle => Seq::<char>::empty() + "@mention"@,
        MessageId::GatewaySetupFeishuMentionOnNote => Seq::<char>::empty() + "When enabled, the bot replies in groups only when @mentioned (permission: im:message.group_at_msg:readonly).\nSet mention_enabled = false in hi.toml to reply to all group messages."@,
        MessageId::GatewaySetupFeishuMentionOffTitle => Seq::<char>::empty() + "Open group chat"@,
        MessageId::GatewaySetupFeishuMentionOffNote => Seq::<char>::empty() + "With @ restriction off, the bot may reply to all group text messages.\nGrant im:message.group_msg on Feishu Open Platform and republish the app."@,
        MessageId::GatewaySetupWeixinRiskTitle => Seq::<char>::empty() + "Risk notice"@,
        MessageId::GatewaySetupWeixinRiskNote => Seq::<char>::empty() + "Personal WeChat iLink is in gray release; Tencent may change or end the service.\nPrefer a secondary account; read the iLink terms of use."@,
        MessageId::GatewaySetupWeixinReloginPrompt => Seq::<char>::empty() + "bot_token already set — scan QR again to re-login?"@,
        MessageId::GatewaySetupWeixinLoginSuccessTitle => Seq::<char>::empty() + "Login successful"@,
        MessageId::GatewaySetupWeixinLoginSuccessNote => Seq::<char>::empty() + "Bound WeChat user: "@ + arg_spec(args, 0) + "\nAfter `hi gateway` starts, DM via the iLink plugin on your phone."@,
        MessageId::GatewaySetupAllowlistMissingTitle => Seq::<char>::empty() + "User ID required"@,
        MessageId::GatewaySetupAllowlistMissingNote => Seq::<char>::empty() + "Allowlist mode requires at least one "@ + arg_spec(args, 0) + ".\nFeishu open_id: event logs or API debugger; WeCom userid: admin console."@,
        MessageId::GatewaySetupCredentialNoteTitle => Seq::<char>::empty() + "Credentials"@,
        MessageId::GatewaySetupExistingChannelsTitle => Seq::<char>::empty() + "Configured channels"@,
        MessageId::GatewaySetupExistingChannelsNote => Seq::<char>::empty() + "Current: "@ + arg_spec(args, 0) + "\nChoose configure now to update the default instance; add other instances with `hi gateway setup`."@,
        MessageId::GatewaySetupGatePrompt => Seq::<char>::empty() + "Configure message channels?"@,
        MessageId::GatewaySetupGateConfigureLabel => Seq::<char>::empty() + "Configure now"@,
        MessageId::GatewaySetupGateConfigureHint => Seq::<char>::empty() + "WeCom, Feishu, or personal WeChat"@,
        MessageId::GatewaySetupGateSkipLabel => Seq::<char>::empty() + "Skip — local hi chat / tui only"@,
        MessageId::GatewaySetupGateSkipHint => Seq::<char>::empty() + "Run hi gateway setup later"@,
        MessageId::ChannelSummaryWecom => Seq::<char>::empty() + "WeCom"@,
        MessageId::ChannelSummaryFeishu => Seq::<char>::empty() + "Feishu"@,
        MessageId::ChannelSummaryWeixin => Seq::<char>::empty() + "Personal WeChat"@,
        MessageId::ChannelSummaryNone => Seq::<char>::empty() + "Not configured"@,
        MessageId::QrGenerateFailed => Seq::<char>::empty() + "Failed to render terminal QR code: "@ + arg_spec(args, 0),
        MessageId::WizardBack => Seq::<char>::empty() + "← Back"@,
        MessageId::WizardSelectEmpty => Seq::<char>::empty() + arg_spec(args, 0) + ": no options"@,
        MessageId::WizardPasswordKeepSuffix => Seq::<char>::empty() + " (Enter to keep current)"@,
        MessageId::NoteTitleWorkspace => Seq::<char>::empty() + "Workspace"@,
        MessageId::NoteTitleGatewaySetup => Seq::<char>::empty() + "Gateway setup"@,
        MessageId::NoteTitleDmPolicy => Seq::<char>::empty() + "DM policy"@,
        MessageId::NoteTitleQr => Seq::<char>::empty() + "QR code"@,
        MessageId::WeixinQrPrompt => Seq::<char>::empty() + "Scan the QR code below with WeChat:"@,
        MessageId::WeixinQrWaitingNoteTitle => Seq::<char>::empty() + "QR code"@,
        MessageId::WeixinQrWaiting => Seq::<char>::empty() + "Waiting for scan (up to 3 minutes)…"@,
        MessageId::WeixinQrScanned => Seq::<char>::empty() + "Scanned — confirm on your phone…"@,
        MessageId::WeixinQrExpired => Seq::<char>::empty() + "QR code expired"@,
        MessageId::ChannelWecomLabel => Seq::<char>::empty() + "WeCom smart bot"@,
        MessageId::ChannelWecomHint => Seq::<char>::empty() + "WebSocket long connection · supported"@,
        MessageId::ChannelFeishuLabel => Seq::<char>::empty() + "Feishu bot"@,
        MessageId::ChannelFeishuHint => Seq::<char>::empty() + "WebSocket long connection · supported"@,
        MessageId::ChannelWeixinLabel => Seq::<char>::empty() + "Personal WeChat (iLink)"@,
        MessageId::ChannelWeixinHint => Seq::<char>::empty() + "iLink polling · experimental · requires phone plugin"@,
        MessageId::ModelHintRecommended => Seq::<char>::empty() + "recommended"@,
        MessageId::ModelHintLegacy => Seq::<char>::empty() + "legacy"@,
        MessageId::TuiBusyWaitingModel => Seq::<char>::empty() + "Waiting for model…"@,
        MessageId::TuiBusyGenerating => Seq::<char>::empty() + "Generating reply"@,
        MessageId::TuiBusyThinking => Seq::<char>::empty() + "Thinking"@,
        MessageId::TuiBusyMemoryExtract => Seq::<char>::empty() + "Extracting memory"@,
        MessageId::TuiBusyCompress => Seq::<char>::empty() + "Compressing context"@,
        MessageId::TuiInterrupted => Seq::<char>::empty() + "Interrupted"@,
        MessageId::TuiContextReset => Seq::<char>::empty() + "Context cleared (transcript kept in database)"@,
        MessageId::TuiModelActivated => Seq::<char>::empty() + "Model switched: "@ + arg_spec(args, 0) + " · "@ + arg_spec(args, 1) + " (saved to hi.toml)"@,
        MessageId::TuiModelUnknown => Seq::<char>::empty() + "No matching provider instance — check hi.toml [ai.providers] ("@ + arg_spec(args, 0) + ")"@,
        MessageId::TuiStatusDefault => Seq::<char>::empty() + "←→ move cursor · Enter send · Ctrl+J newline · Ctrl+C exit · model "@ + arg_spec(args, 0),
        MessageId::TuiStatusSlashMenu => Seq::<char>::empty() + "↑↓ select · Tab/Enter fill input"@,
        MessageId::TuiStatusModelMenu => Seq::<char>::empty() + "↑↓ select model · Enter activate · Esc cancel"@,
        MessageId::TuiSlashModel => Seq::<char>::empty() + "/model"@,
        MessageId::TuiSlashModelDesc => Seq::<char>::empty() + "Pick and switch a configured model instance"@,
        MessageId::TuiSlashReset => Seq::<char>::empty() + "/reset"@,
        MessageId::TuiSlashResetDesc => Seq::<char>::empty() + "Clear agent-visible context (alias /clear)"@,
        MessageId::TuiSlashCompact => Seq::<char>::empty() + "/compact"@,
        MessageId::TuiSlashCompactDesc => Seq::<char>::empty() + "Force trim and LLM-summarize context"@,
        MessageId::TuiSlashVerbose => Seq::<char>::empty() + "/verbose"@,
        MessageId::TuiSlashVerboseDesc => Seq::<char>::empty() + "Toggle verbose: stream full think & tool output"@,
        MessageId::TuiVerboseOn => Seq::<char>::empty() + "Verbose: on · think & tool output stream in full"@,
        MessageId::TuiVerboseOff => Seq::<char>::empty() + "Verbose: off · summary lines only"@,
        MessageId::TuiExitResumeHint => Seq::<char>::empty() + "Session saved · session="@ + arg_spec(args, 0) + " · resume: hi -s "@ + arg_spec(args, 0),
        MessageId::TuiModelCurrentSuffix => Seq::<char>::empty() + " (current)"@,
        MessageId::TuiApprovalTitle => Seq::<char>::empty() + "Approval"@,
        MessageId::TuiApprovalApprove => Seq::<char>::empty() + "y approve"@,
        MessageId::TuiApprovalReject => Seq::<char>::empty() + "n/Esc reject"@,
        MessageId::TuiQueueWaiting => Seq::<char>::empty() + "Queued for the next turn: "@ + arg_spec(args, 0),
        MessageId::ToolBudgetReminder => Seq::<char>::empty() + "[Budget: "@ + arg_spec(args, 0) + "/"@ + arg_spec(args, 1) + " — ~"@ + arg_spec(args, 2) + " turn(s) left; wrap up and reply soon.]"@,
        MessageId::ToolBudgetForceSummary => Seq::<char>::empty() + "(System: tool-call limit reached for this turn. Summarize progress, findings, and remaining work without calling any tools. Reply in English.)"@,
        MessageId::ToolBudgetSummaryPrefix => Seq::<char>::empty() + "(Tool-call limit reached ("@ + arg_spec(args, 0) + "/"@ + arg_spec(args, 0) + "); summary below)"@,
    }
}

#[verifier::rlimit(50)]
pub fn format_en(id: MessageId, args: &[String]) -> (r: String)
    ensures
        r@ == message_en(id, views(args@)),
{
    let mut out: Vec<char> = Vec::new();
    match id {
        MessageId::MissingApiKey => {
            push_str(&mut out, "missing LLM api_key in ~/.hi/hi.toml — set [ai.providers.<name>] or run `hi setup`");
        },
        MessageId::UnknownAiProvider => {
            push_str(&mut out, "unknown ai.provider ");
            push_debug(&mut out, args, 0);
            push_str(&mut out, " — use openai-compat | codex | anthropic | ollama");
        },
        MessageId::UnknownModel => {
            push_str(&mut out, "unknown model ");
            push_debug(&mut out, args, 0);
            push_str(&mut out, " — available: ");
            push_arg(&mut out, args, 1);
        },
        MessageId::ParseHiConfig => {
            push_str(&mut out, "parse hi config: ");
            push_arg(&mut out, args, 0);
        },
        MessageId::SerializeHiConfig => {
            push_str(&mut out, "serialize hi config failed");
        },
        MessageId::ReadCurrentDir => {
            push_str(&mut out, "read current directory: ");
            push_arg(&mut out, args, 0);
        },
        MessageId::CreateWorkspace => {
            push_str(&mut out, "create workspace ");
            push_arg(&mut out, args, 0);
            push_str(&mut out, ": ");
            push_arg(&mut out, args, 1);
        },
        MessageId::InvalidWorkspace => {
            push_str(&mut out, "invalid workspace ");
            push_arg(&mut out, args, 0);
            push_str(&mut out, ": ");
            push_arg(&mut out, args, 1);
        },
        MessageId::ConfigLock => {
            push_str(&mut out, "config lock: ");
            push_arg(&mut out, args, 0);
        },
        MessageId::ProviderLock => {
            push_str(&mut out, "provider lock failed");
        },
        MessageId::ApprovalPolicyLock => {
            push_str(&mut out, "approval policy lock failed");
        },
        MessageId::BuildAgent => {
            push_str(&mut out, "build agent: ");
            push_arg(&mut out, args, 0);
        },
        MessageId::ConfigNotSetup => {
            push_str(&mut out, "not configured yet — run `hi setup` first");
        },
        MessageId::HiTomlPath => {
            push_str(&mut out, "hi.toml: ");
            push_arg(&mut out, args, 0);
        },
        MessageId::ChannelsNotConfigured => {
            push_str(&mut out, "no message channels configured — run `hi gateway setup`, then `hi gateway`");
        },
        MessageId::UnknownChannelId => {
            push_str(&mut out, "unknown channel ");
            push_debug(&mut out, args, 0);
            push_str(&mut out, " — available: wecom, feishu, weixin and :<account> forms");
        },
        MessageId::WecomAccountMissing => {
            push_str(&mut out, "wecom account ");
            push_debug(&mut out, args, 0);
            push_str(&mut out, " not configured — add [channels.wecom] or [channels.wecom.");
            push_arg(&mut out, args, 0);
            push_str(&mut out, "] in hi.toml");
        },
        MessageId::FeishuAccountMissing => {
            push_str(&mut out, "feishu account ");
            push_debug(&mut out, args, 0);
            push_str(&mut out, " not configured — add [channels.feishu] or [channels.feishu.");
            push_arg(&mut out, args, 0);
            push_str(&mut out, "] in hi.toml");
        },
        MessageId::WeixinAccountMissing => {
            push_str(&mut out, "weixin account ");
            push_debug(&mut out, args, 0);
            push_str(&mut out, " not configured — add [channels.weixin] or [channels.weixin.");
            push_arg(&mut out, args, 0);
            push_str(&mut out, "] in hi.toml");
        },
        MessageId::MissingWecomSecret => {
            push_str(&mut out, "missing wecom secret — run `hi gateway setup` to fill secret");
        },
        MessageId::MissingWecomBotId => {
            push_str(&mut out, "wecom.bot_id is empty — create a WeCom smart bot and set bot_id");
        },
        MessageId::MissingFeishuAppId => {
            push_str(&mut out, "feishu.app_id is empty — run `hi gateway setup`");
        },
        MessageId::MissingFeishuAppSecret => {
            push_str(&mut out, "feishu.app_secret is empty — run `hi gateway setup`");
        },
        MessageId::FeishuAllowlistEmpty => {
            push_str(&mut out, "feishu allowlist is empty: no one can message the bot — set allow_from in hi.toml or run `hi gateway setup`");
        },
        MessageId::WecomAllowlistEmpty => {
            push_str(&mut out, "wecom allowlist is empty: no one can message the bot — set allow_from in hi.toml or run `hi gateway setup`");
        },
        MessageId::WecomDmPolicyOpenWarn => {
            push_str(&mut out, "wecom dm_policy=open: all users can trigger the agent; use allowlist in production");
        },
        MessageId::FeishuDmPolicyOpenWarn => {
            push_str(&mut out, "feishu dm_policy=open: all users can trigger the agent; use allowlist in production");
        },
        MessageId::DefaultWelcome => {
            push_str(&mut out, "Hi, I'm hi — your ultra-lightweight personal AI assistant. How can I help?");
        },
        MessageId::SchemaIncompatible => {
            push_arg(&mut out, args, 0);
        },
        MessageId::MemorySearchDisabled => {
            push_str(&mut out, "memory_search: memory disabled or not persisted");
        },
        MessageId::MemoryQueryEmpty => {
            push_str(&mut out, "memory_search: query must not be empty");
        },
        MessageId::ToolIterationLimit => {
            push_str(&mut out, "tool-call limit reached (");
            push_arg(&mut out, args, 0);
            push_str(&mut out, ") and no summary could be generated — narrow the task or raise context.max_tool_iterations");
        },
        MessageId::MemoryRecorded => {
            push_str(&mut out, "memory recorded #");
            push_arg(&mut out, args, 0);
        },
        MessageId::MemoryDuplicate => {
            push_str(&mut out, "memory already exists (duplicate skipped)");
        },
        MessageId::EmptyChannelReply => {
            push_str(&mut out, "empty reply from agent");
        },
        MessageId::EmergencyTrimSummary => {
            push_str(&mut out, "emergency trim: shortened ");
            push_arg(&mut out, args, 0);
            push_str(&mut out, " message(s)");
        },
        MessageId::ExtractKnotsFailed => {
            push_str(&mut out, "knot extraction failed: ");
            push_arg(&mut out, args, 0);
        },
        MessageId::ApprovalPromptBash => {
            push_str(&mut out, "⚠️ Confirmation required — reply approve/confirm or cancel:\nbash: ");
            push_arg(&mut out, args, 0);
            push_str(&mut out, "\n→ add ");
            push_arg(&mut out, args, 1);
        },
        MessageId::ApprovalPromptFile => {
            push_str(&mut out, "⚠️ Confirmation required — reply approve/confirm or cancel:\n");
            push_arg(&mut out, args, 0);
            push_str(&mut out, ": ");
            push_arg(&mut out, args, 1);
            push_str(&mut out, "\n→ add ");
            push_arg(&mut out, args, 2);
        },
        MessageId::ApprovalPromptGeneric => {
            push_str(&mut out, "⚠️ Confirmation required — reply approve/confirm or cancel:\n");
            push_arg(&mut out, args, 0);
            push_str(&mut out, ": ");
            push_arg(&mut out, args, 1);
            push_str(&mut out, "\n→ add ");
            push_arg(&mut out, args, 2);
        },
        MessageId::GatewayThinking => {
            push_str(&mut out, "Thinking…");
        },
        MessageId::GatewayBusy => {
            push_str(&mut out, "Still processing your last message — please wait…");
        },
        MessageId::GatewayTurnAck => {
            push_str(&mut out, "Got it — thinking…");
        },
        MessageId::GatewayProcessFailed => {
            push_str(&mut out, "Something went wrong: ");
            push_arg(&mut out, args, 0);
            push_str(&mut out, "\nPlease try again later.");
        },
        MessageId::GatewayUnsupportedMessage => {
            push_str(&mut out, "Unsupported ");
            push_arg(&mut out, args, 0);
            push_str(&mut out, " message — please send text.");
        },
        MessageId::GatewayCheckOkWecom => {
            push_str(&mut out, "WeCom gateway check OK");
        },
        MessageId::GatewayCheckOkFeishu => {
            push_str(&mut out, "Feishu gateway check OK");
        },
        MessageId::GatewayCheckOkWeixin => {
            push_str(&mut out, "Weixin iLink gateway check OK");
        },
        MessageId::GatewayCheckOkGeneric => {
            push_str(&mut out, "Gateway check OK");
        },
        MessageId::GatewayStarted => {
            push_str(&mut out, "gateway started (pid ");
            push_arg(&mut out, args, 0);
            push_str(&mut out, ")");
        },
        MessageId::GatewayLogsDir => {
            push_str(&mut out, "logs: ");
            push_arg(&mut out, args, 0);
        },
        MessageId::GatewayStopHint => {
            push_str(&mut out, "stop: hi gateway stop");
        },
        MessageId::GatewayNotRunning => {
            push_str(&mut out, "gateway is not running");
        },
        MessageId::GatewayStopped => {
            push_str(&mut out, "gateway stopped (pid ");
            push_arg(&mut out, args, 0);
            push_str(&mut out, ")");
        },
        MessageId::GatewayForceStopped => {
            push_str(&mut out, "gateway force-stopped (pid ");
            push_arg(&mut out, args, 0);
            push_str(&mut out, ")");
        },
        MessageId::GatewayPidFile => {
            push_str(&mut out, "pid file: ");
            push_arg(&mut out, args, 0);
        },
        MessageId::GatewayWorkspace => {
            push_str(&mut out, "workspace: ");
            push_arg(&mut out, args, 0);
        },
        MessageId::GatewayChannels => {
            push_str(&mut out, "channels: ");
            push_arg(&mut out, args, 0);
        },
        MessageId::GatewayChannelsNone => {
            push_str(&mut out, "channels: (none — run `hi gateway setup`)");
        },
        MessageId::GatewayStatusRunning => {
            push_str(&mut out, "status: running (pid ");
            push_arg(&mut out, args, 0);
            push_str(&mut out, ")");
        },
        MessageId::GatewayStatusStopped => {
            push_str(&mut out, "status: stopped");
        },
        MessageId::GatewayRecentLog => {
            push_str(&mut out, "recent log: ");
            push_arg(&mut out, args, 0);
        },
        MessageId::GatewayReloadSent => {
            push_str(&mut out, "notified gateway to reload hi.toml ([ai], [tools.approvals]) (pid ");
            push_arg(&mut out, args, 0);
            push_str(&mut out, ")");
        },
        MessageId::GatewayStartFailed => {
            push_str(&mut out, "failed to start gateway: ");
            push_arg(&mut out, args, 0);
        },
        MessageId::GatewayPidParseFailed => {
            push_str(&mut out, "cannot parse gateway pid: ");
            push_arg(&mut out, args, 0);
        },
        MessageId::GatewayStopSignalFailed => {
            push_str(&mut out, "failed to send stop signal (pid ");
            push_arg(&mut out, args, 0);
            push_str(&mut out, ")");
        },
        MessageId::GatewayStopFailed => {
            push_str(&mut out, "failed to stop gateway (pid ");
            push_arg(&mut out, args, 0);
            push_str(&mut out, ")");
        },
        MessageId::GatewayReloadUnixOnly => {
            push_str(&mut out, "gateway reload is Unix-only for now — use `hi gateway restart`");
        },
        MessageId::GatewayReloadSignalFailed => {
            push_str(&mut out, "failed to send reload signal (pid ");
            push_arg(&mut out, args, 0);
            push_str(&mut out, ")");
        },
        MessageId::GatewayRecentLogLine => {
            push_str(&mut out, "recent log: ");
            push_arg(&mut out, args, 0);
        },
        MessageId::ChatBanner => {
            push_str(&mut out, "hi chat — Enter to send (/quit /reset /compact) | session=");
            push_arg(&mut out, args, 0);
            push_str(&mut out, " | model=");
            push_arg(&mut out, args, 1);
            push_str(&mut out, " | cwd=");
            push_arg(&mut out, args, 2);
        },
        MessageId::ContextReset => {
            push_str(&mut out, "context cleared (full transcript kept in DB — use `hi session show` to view)");
        },
        MessageId::ModelSlashTuiOnly => {
            push_str(&mut out, "/model is TUI-only — use `hi` or `hi tui`");
        },
        MessageId::UnknownChatArg => {
            push_str(&mut out, "unknown argument `");
            push_arg(&mut out, args, 0);
            push_str(&mut out, "`. Single turn: `hi chat word1 word2 …`; REPL: `hi chat`");
        },
        MessageId::SessionListHeader => {
            push_arg(&mut out, args, 0);
            push_str(&mut out, " session(s)");
        },
        MessageId::SessionListRow => {
            push_padded(&mut out, args, 0, 24, true);
            push_str(&mut out, " ");
            push_padded(&mut out, args, 1, 8, false);
            push_str(&mut out, " ");
            push_padded(&mut out, args, 2, 8, false);
            push_str(&mut out, "  ");
            push_arg(&mut out, args, 3);
        },
        MessageId::SessionEmpty => {
            push_str(&mut out, "(no sessions)");
        },
        MessageId::SessionNotFound => {
            push_str(&mut out, "empty session or not found: ");
            push_arg(&mut out, args, 0);
        },
        MessageId::SessionExported => {
            push_str(&mut out, "exported ");
            push_arg(&mut out, args, 0);
            push_str(&mut out, " message(s) → ");
            push_arg(&mut out, args, 1);
        },
        MessageId::SessionDeleted => {
            push_str(&mut out, "deleted session ");
            push_arg(&mut out, args, 0);
            push_str(&mut out, " and all messages");
        },
        MessageId::SessionPurgeNeedConfirm => {
            push_str(&mut out, "refused: add --confirm to permanently delete session ");
            push_arg(&mut out, args, 0);
        },
        MessageId::CompressionListHeader => {
            push_str(&mut out, "compression events");
        },
        MessageId::CompressionRow => {
            push_str(&mut out, "#");
            push_arg(&mut out, args, 0);
            push_str(&mut out, "  msgs ");
            push_arg(&mut out, args, 1);
            push_str(&mut out, "..");
            push_arg(&mut out, args, 2);
            push_str(&mut out, "  (");
            push_arg(&mut out, args, 3);
            push_str(&mut out, " rows)  ");
            push_arg(&mut out, args, 4);
        },
        MessageId::CompressionDetailHeader => {
            push_str(&mut out, "compression #");
            push_arg(&mut out, args, 0);
        },
        MessageId::CompressionDetailSummary => {
            push_arg(&mut out, args, 0);
        },
        MessageId::MemoryListEmpty => {
            push_str(&mut out, "(no knots, owner=");
            push_arg(&mut out, args, 0);
            push_str(&mut out, ")");
        },
        MessageId::MemoryAdded => {
            push_str(&mut out, "knot added #");
            push_arg(&mut out, args, 0);
        },
        MessageId::MemoryForgotten => {
            push_str(&mut out, "knot forgotten #");
            push_arg(&mut out, args, 0);
        },
        MessageId::MemoryReinforced => {
            push_str(&mut out, "knot reinforced #");
            push_arg(&mut out, args, 0);
        },
        MessageId::MemoryExtractNone => {
            push_str(&mut out, "session ");
            push_arg(&mut out, args, 0);
            push_str(&mut out, " has no in_context messages to extract");
        },
        MessageId::MemoryExtractDone => {
            push_str(&mut out, "extraction done: added ");
            push_arg(&mut out, args, 0);
            push_str(&mut out, ", skipped ");
            push_arg(&mut out, args, 1);
            push_str(&mut out, ", superseded ");
            push_arg(&mut out, args, 2);
        },
        MessageId::MemoryListRow => {
            push_padded(&mut out, args, 0, 6, false);
            push_str(&mut out, "  ");
            push_padded(&mut out, args, 1, 12, true);
            push_str(&mut out, " ");
            push_padded(&mut out, args, 2, 10, true);
            push_str(&mut out, " ");
            push_padded(&mut out, args, 3, 5, false);
            push_str(&mut out, "  ");
            push_arg(&mut out, args, 4);
        },
        MessageId::MemoryDisabledInConfig => {
            push_str(&mut out, "[memory].enabled = false — enable memory in hi.toml");
        },
        MessageId::MemoryUnknownKind => {
            push_str(&mut out, "unknown kind: ");
            push_arg(&mut out, args, 0);
            push_str(&mut out, " (preference|fact|decision|task|procedure)");
        },
        MessageId::LlmHttpError => {
            if arg_is_empty(args, 1) {
                push_str(&mut out, "LLM API request failed (HTTP ");
                push_arg(&mut out, args, 0);
                push_str(&mut out, "). ");
                push_arg(&mut out, args, 2);
            } else {
                push_str(&mut out, "LLM API request failed (HTTP ");
                push_arg(&mut out, args, 0);
                push_str(&mut out, "): ");
                push_arg(&mut out, args, 1);
                push_str(&mut out, "\n");
                push_arg(&mut out, args, 2);
            }
        },
        MessageId::LlmTransportError => {
            push_str(&mut out, "cannot reach LLM service — check network, proxy, and base_url in hi.toml.\nDetails: ");
            push_arg(&mut out, args, 0);
        },
        MessageId::LlmReadBodyError => {
            push_str(&mut out, "failed to read LLM response — connection may have dropped.\nDetails: ");
            push_arg(&mut out, args, 0);
        },
        MessageId::LlmParseError => {
            push_str(&mut out, "LLM returned an unparseable response — service or model name may be wrong.\nDetails: ");
            push_arg(&mut out, args, 0);
        },
        MessageId::LlmStreamError => {
            push_str(&mut out, "LLM stream read error — connection may have dropped.\nDetails: ");
            push_arg(&mut out, args, 0);
        },
        MessageId::AnthropicNeedsApiKey => {
            push_str(&mut out, "Anthropic requires an API key — run `hi setup`");
        },
        MessageId::StdinApprovalHeader => {
            push_str(&mut out, "⚠️  Confirmation required:");
        },
        MessageId::StdinApprovalPrompt => {
            push_str(&mut out, "Approve? [y/N]: ");
        },
        MessageId::WizardWritten => {
            push_str(&mut out, "written to ");
            push_arg(&mut out, args, 0);
        },
        MessageId::WizardFinishSteps => {
            push_arg(&mut out, args, 0);
        },
        MessageId::WizardConfigPathLine => {
            push_str(&mut out, "Config file: ");
            push_arg(&mut out, args, 0);
        },
        MessageId::WizardSelectNumberPrompt => {
            push_str(&mut out, "Choose [");
            push_arg(&mut out, args, 0);
            push_str(&mut out, "]");
        },
        MessageId::WizardWriteFailed => {
            push_str(&mut out, "write failed");
        },
        MessageId::WizardFinishTitle => {
            push_str(&mut out, "Done");
        },
        MessageId::WizardCancelled => {
            push_str(&mut out, "setup wizard cancelled");
        },
        MessageId::SetupTitle => {
            push_str(&mut out, "hi · setup wizard");
        },
        MessageId::SetupUpdateTitle => {
            push_str(&mut out, "hi · update configuration");
        },
        MessageId::SetupNotePath => {
            push_str(&mut out, "Writes to ");
            push_arg(&mut out, args, 0);
            push_str(&mut out, ".\nLLM is required; message channels are optional (hi gateway setup later).\nSecrets stay on this machine — do not commit to git.\nPress Enter to keep current values.");
        },
        MessageId::SetupNoteRepeat => {
            push_str(&mut out, "Press Enter to keep the current value; menus with «back» let you return.");
        },
        MessageId::SetupSummaryProvider => {
            push_str(&mut out, "Provider: ");
            push_arg(&mut out, args, 0);
        },
        MessageId::SetupSummaryModel => {
            push_str(&mut out, "Model: ");
            push_arg(&mut out, args, 0);
        },
        MessageId::SetupSummaryWorkspace => {
            push_str(&mut out, "Gateway workspace: ");
            push_arg(&mut out, args, 0);
        },
        MessageId::SetupSummaryApiKeySet => {
            push_str(&mut out, "API Key: set");
        },
        MessageId::SetupSummaryApiKeyMissing => {
            push_str(&mut out, "API Key: not set");
        },
        MessageId::SetupWorkspaceNote => {
            push_str(&mut out, "Gateway workspace is for remote message channels.\nhi / hi tui / hi chat use the shell cwd, not this path.");
        },
        MessageId::SetupWorkspacePrompt => {
            push_str(&mut out, "Gateway workspace");
        },
        MessageId::SetupProviderPrompt => {
            push_str(&mut out, "Choose LLM provider");
        },
        MessageId::SetupOllamaUrlPrompt => {
            push_str(&mut out, "Ollama URL (without /v1 suffix)");
        },
        MessageId::SetupBaseUrlPrompt => {
            push_str(&mut out, "API base_url (empty = provider default)");
        },
        MessageId::SetupDeepseekKeyNote => {
            push_str(&mut out, "DeepSeek API Key\nGet one at https://platform.deepseek.com/api_keys\nDocs: https://api-docs.deepseek.com/");
        },
        MessageId::SetupModelPrompt => {
            push_str(&mut out, "Choose model");
        },
        MessageId::SetupModelCustom => {
            push_str(&mut out, "Custom model name");
        },
        MessageId::SetupModelFetching => {
            push_str(&mut out, "Fetching available models…");
        },
        MessageId::SetupModelFetchDone => {
            push_str(&mut out, "Fetched ");
            push_arg(&mut out, args, 0);
            push_str(&mut out, " models");
        },
        MessageId::SetupModelFetchFailedTitle => {
            push_str(&mut out, "Failed to fetch model list");
        },
        MessageId::SetupModelFetchFailedNote => {
            push_str(&mut out, "Falling back to built-in list / manual input.\nDetail: ");
            push_arg(&mut out, args, 0);
        },
        MessageId::SetupApiKeyPrompt => {
            push_str(&mut out, "API Key");
        },
        MessageId::SetupSaving => {
            push_str(&mut out, "Saving configuration…");
        },
        MessageId::SetupFinishNoGateway => {
            push_str(&mut out, "Configuration saved.\n\n  hi chat hello          try a chat\n  hi                     terminal UI\n  hi gateway setup       add channels later\n  hi config              view config (secrets redacted)\n\nTool approval rules were written to hi.toml; runtime grants append automatically.");
        },
        MessageId::SetupFinishWithGateway => {
            push_str(&mut out, "Configuration saved.\n\n  hi chat hello          local chat\n  hi gateway --check     connection check\n  hi gateway             start gateway\n  hi gateway setup       add or update channels\n  hi config              view config (secrets redacted)\n\nGateway tools run in the workspace directory; local chat/tui use the shell cwd.\nTool approval rules were written to hi.toml; runtime grants append automatically.");
        },
        MessageId::NoteTitleSetup => {
            push_str(&mut out, "Setup");
        },
        MessageId::NoteTitleLlm => {
            push_str(&mut out, "LLM");
        },
        MessageId::NoteTitleDeepseekApiKey => {
            push_str(&mut out, "DeepSeek API Key");
        },
        MessageId::SetupCurrentSummaryTitle => {
            push_str(&mut out, "Current configuration");
        },
        MessageId::SetupSummaryChannels => {
            push_str(&mut out, "Channels: ");
            push_arg(&mut out, args, 0);
        },
        MessageId::SetupSummaryMaskedKey => {
            push_str(&mut out, "API Key: set (****)");
        },
        MessageId::SetupLlmSummaryBody => {
            push_str(&mut out, "Provider: ");
            push_arg(&mut out, args, 0);
            push_str(&mut out, "\nModel: ");
            push_arg(&mut out, args, 1);
            push_str(&mut out, "\n");
            push_arg(&mut out, args, 2);
            push_str(&mut out, "\n\nContinue to message channels →");
        },
        MessageId::SetupCodexNotLoggedInTitle => {
            push_str(&mut out, "OpenAI Codex not signed in");
        },
        MessageId::SetupCodexSkippedTitle => {
            push_str(&mut out, "Codex skipped");
        },
        MessageId::SetupCodexSkippedNote => {
            push_str(&mut out, "Did not switch to Codex this time — pick another provider.\nAfter `codex login`, choose OpenAI Codex again.");
        },
        MessageId::SetupCodexModelPrompt => {
            push_str(&mut out, "Choose Codex model");
        },
        MessageId::SetupCodexLoginHint => {
            push_str(&mut out, "No local Codex credentials found:\n  ");
            push_arg(&mut out, args, 0);
            push_str(&mut out, "\n\nSign in with the OpenAI Codex CLI (ChatGPT account):\n  codex login\n\nThen re-run `hi setup` and choose OpenAI Codex.");
        },
        MessageId::ProviderDeepseekHint => {
            push_str(&mut out, "Official API (platform.deepseek.com)");
        },
        MessageId::ProviderOpenaiCompatLabel => {
            push_str(&mut out, "OpenAI-compatible API");
        },
        MessageId::ProviderOpenaiCompatHint => {
            push_str(&mut out, "OpenAI, Moonshot, self-hosted OpenAI-compatible endpoints");
        },
        MessageId::ProviderCodexHint => {
            push_str(&mut out, "Reuse local Codex CLI login (ChatGPT) — no API key");
        },
        MessageId::ProviderOllamaLabel => {
            push_str(&mut out, "Ollama (local)");
        },
        MessageId::ProviderOllamaHint => {
            push_str(&mut out, "Runs on this machine — no API key");
        },
        MessageId::ModelHintFlagship => {
            push_str(&mut out, "Flagship");
        },
        MessageId::ModelHintReasonerDeprecated => {
            push_str(&mut out, "Reasoning mode, deprecated 2026-07");
        },
        MessageId::ModelHintDeprecatedJuly2026 => {
            push_str(&mut out, "Legacy, deprecated 2026-07");
        },
        MessageId::ModelHintSonnet4Recommended => {
            push_str(&mut out, "Sonnet 4 (recommended)");
        },
        MessageId::ModelBackToProviderLabel => {
            push_str(&mut out, "← Back to provider list");
        },
        MessageId::ModelBackToProviderHint => {
            push_str(&mut out, "Return to provider menu");
        },
        MessageId::ModelCustomLabel => {
            push_str(&mut out, "Custom model name…");
        },
        MessageId::ModelCustomHint => {
            push_str(&mut out, "Type model name manually");
        },
        MessageId::SetupModelNamePrompt => {
            push_str(&mut out, "Model name (model)");
        },
        MessageId::GatewaySetupTitle => {
            push_str(&mut out, "hi · message channel setup");
        },
        MessageId::GatewaySetupUpdateTitle => {
            push_str(&mut out, "hi · update message channels");
        },
        MessageId::GatewaySetupNote => {
            push_str(&mut out, "Writes channel settings to ");
            push_arg(&mut out, args, 0);
            push_str(&mut out, ".\nUse `hi setup` for LLM; this wizard adds or updates channels.\nPress Enter to keep current values.");
        },
        MessageId::GatewaySetupChannelPrompt => {
            push_str(&mut out, "Choose message channel");
        },
        MessageId::GatewaySetupWecomCredsNote => {
            push_str(&mut out, "WeCom: get Bot ID and Secret from Admin Console → Smart Bot → long-connection mode.\nSecret is shown once — keep it safe and out of git.");
        },
        MessageId::GatewaySetupBotIdPrompt => {
            push_str(&mut out, "Bot ID (wecom.bot_id)");
        },
        MessageId::GatewaySetupSecretPrompt => {
            push_str(&mut out, "Bot Secret (wecom.secret)");
        },
        MessageId::GatewaySetupAllowlistPrompt => {
            push_str(&mut out, "Enable DM allowlist?");
        },
        MessageId::GatewaySetupAllowlistUsersPrompt => {
            push_str(&mut out, "Allowed user IDs (");
            push_arg(&mut out, args, 0);
            push_str(&mut out, ", comma-separated, at least one)");
        },
        MessageId::GatewaySetupOpenModeNote => {
            push_str(&mut out, "Open mode: anyone can trigger the agent.\nUse only for dev; switch back to allowlist for production.");
        },
        MessageId::GatewaySetupWelcomePrompt => {
            push_str(&mut out, "Welcome message (empty = system default)");
        },
        MessageId::GatewaySetupSaving => {
            push_str(&mut out, "Saving configuration…");
        },
        MessageId::GatewaySetupFinish => {
            push_str(&mut out, "Channel configuration saved.\n\nNext steps:\n  hi gateway --check    connection check\n  hi gateway            start gateway\n  hi config             view config (secrets redacted)");
        },
        MessageId::GatewaySetupNeedBaseConfig => {
            push_str(&mut out, "Complete base setup first:\n  hi setup\n\nConfig file: ");
            push_arg(&mut out, args, 0);
        },
        MessageId::GatewaySetupNoChannels => {
            push_str(&mut out, "No message channels available in this build");
        },
        MessageId::GatewaySetupFeishuCredsNote => {
            push_str(&mut out, "Feishu: create an app at https://open.feishu.cn/app,\nenable bot, subscribe to im.message.receive_v1, use long-connection events.\nPermissions: DM, group @ messages (or all group messages), send messages.\nAdd the bot to target groups; keep App Secret out of git.");
        },
        MessageId::GatewaySetupWeixinCredsNote => {
            push_str(&mut out, "Personal WeChat iLink (experimental):\n1. WeChat 8.0.70+ (iOS) / 8.0.69+ (Android)\n2. Me → Settings → Plugins → enable iLink\n3. This wizard shows a QR code for authorization\n4. Prefer a secondary account; keep bot_token out of git\nSee docs/guides/weixin-ilink-integration.md");
        },
        MessageId::GatewaySetupGenericCredsNote => {
            push_str(&mut out, "Prepare credentials per your platform documentation.");
        },
        MessageId::GatewaySetupFeishuAppIdPrompt => {
            push_str(&mut out, "App ID (feishu.app_id)");
        },
        MessageId::GatewaySetupFeishuSecretPrompt => {
            push_str(&mut out, "App Secret (feishu.app_secret)");
        },
        MessageId::GatewaySetupFeishuDomainPrompt => {
            push_str(&mut out, "API domain (empty = open.feishu.cn; Lark international = open.larksuite.com)");
        },
        MessageId::GatewaySetupFeishuMentionPrompt => {
            push_str(&mut out, "Group chat: reply only when @mentioned (mention_enabled, default true)?");
        },
        MessageId::GatewaySetupFeishuMentionOnTitle => {
            push_str(&mut out, "@mention");
        },
        MessageId::GatewaySetupFeishuMentionOnNote => {
            push_str(&mut out, "When enabled, the bot replies in groups only when @mentioned (permission: im:message.group_at_msg:readonly).\nSet mention_enabled = false in hi.toml to reply to all group messages.");
        },
        MessageId::GatewaySetupFeishuMentionOffTitle => {
            push_str(&mut out, "Open group chat");
        },
        MessageId::GatewaySetupFeishuMentionOffNote => {
            push_str(&mut out, "With @ restriction off, the bot may reply to all group text messages.\nGrant im:message.group_msg on Feishu Open Platform and republish the app.");
        },
        MessageId::GatewaySetupWeixinRiskTitle => {
            push_str(&mut out, "Risk notice");
        },
        MessageId::GatewaySetupWeixinRiskNote => {
            push_str(&mut out, "Personal WeChat iLink is in gray release; Tencent may change or end the service.\nPrefer a secondary account; read the iLink terms of use.");
        },
        MessageId::GatewaySetupWeixinReloginPrompt => {
            push_str(&mut out, "bot_token already set — scan QR again to re-login?");
        },
        MessageId::GatewaySetupWeixinLoginSuccessTitle => {
            push_str(&mut out, "Login successful");
        },
        MessageId::GatewaySetupWeixinLoginSuccessNote => {
            push_str(&mut out, "Bound WeChat user: ");
            push_arg(&mut out, args, 0);
            push_str(&mut out, "\nAfter `hi gateway` starts, DM via the iLink plugin on your phone.");
        },
        MessageId::GatewaySetupAllowlistMissingTitle => {
            push_str(&mut out, "User ID required");
        },
        MessageId::GatewaySetupAllowlistMissingNote => {
            push_str(&mut out, "Allowlist mode requires at least one ");
            push_arg(&mut out, args, 0);
            push_str(&mut out, ".\nFeishu open_id: event logs or API debugger; WeCom userid: admin console.");
        },
        MessageId::GatewaySetupCredentialNoteTitle => {
            push_str(&mut out, "Credentials");
        },
        MessageId::GatewaySetupExistingChannelsTitle => {
            push_str(&mut out, "Configured channels");
        },
        MessageId::GatewaySetupExistingChannelsNote => {
            push_str(&mut out, "Current: ");
            push_arg(&mut out, args, 0);
            push_str(&mut out, "\nChoose configure now to update the default instance; add other instances with `hi gateway setup`.");
        },
        MessageId::GatewaySetupGatePrompt => {
            push_str(&mut out, "Configure message channels?");
        },
        MessageId::GatewaySetupGateConfigureLabel => {
            push_str(&mut out, "Configure now");
        },
        MessageId::GatewaySetupGateConfigureHint => {
            push_str(&mut out, "WeCom, Feishu, or personal WeChat");
        },
        MessageId::GatewaySetupGateSkipLabel => {
            push_str(&mut out, "Skip — local hi chat / tui only");
        },
        MessageId::GatewaySetupGateSkipHint => {
            push_str(&mut out, "Run hi gateway setup later");
        },
        MessageId::ChannelSummaryWecom => {
            push_str(&mut out, "WeCom");
        },
        MessageId::ChannelSummaryFeishu => {
            push_str(&mut out, "Feishu");
        },
        MessageId::ChannelSummaryWeixin => {
            push_str(&mut out, "Personal WeChat");
        },
        MessageId::ChannelSummaryNone => {
            push_str(&mut out, "Not configured");
        },
        MessageId::QrGenerateFailed => {
            push_str(&mut out, "Failed to render terminal QR code: ");
            push_arg(&mut out, args, 0);
        },
        MessageId::WizardBack => {
            push_str(&mut out, "← Back");
        },
        MessageId::WizardSelectEmpty => {
            push_arg(&mut out, args, 0);
            push_str(&mut out, ": no options");
        },
        MessageId::WizardPasswordKeepSuffix => {
            push_str(&mut out, " (Enter to keep current)");
        },
        MessageId::NoteTitleWorkspace => {
            push_str(&mut out, "Workspace");
        },
        MessageId::NoteTitleGatewaySetup => {
            push_str(&mut out, "Gateway setup");
        },
        MessageId::NoteTitleDmPolicy => {
            push_str(&mut out, "DM policy");
        },
        MessageId::NoteTitleQr => {
            push_str(&mut out, "QR code");
        },
        MessageId::WeixinQrPrompt => {
            push_str(&mut out, "Scan the QR code below with WeChat:");
        },
        MessageId::WeixinQrWaitingNoteTitle => {
            push_str(&mut out, "QR code");
        },
        MessageId::WeixinQrWaiting => {
            push_str(&mut out, "Waiting for scan (up to 3 minutes)…");
        },
        MessageId::WeixinQrScanned => {
            push_str(&mut out, "Scanned — confirm on your phone…");
        },
        MessageId::WeixinQrExpired => {
            push_str(&mut out, "QR code expired");
        },
        MessageId::ChannelWecomLabel => {
            push_str(&mut out, "WeCom smart bot");
        },
        MessageId::ChannelWecomHint => {
            push_str(&mut out, "WebSocket long connection · supported");
        },
        MessageId::ChannelFeishuLabel => {
            push_str(&mut out, "Feishu bot");
        },
        MessageId::ChannelFeishuHint => {
            push_str(&mut out, "WebSocket long connection · supported");
        },
        MessageId::ChannelWeixinLabel => {
            push_str(&mut out, "Personal WeChat (iLink)");
        },
        MessageId::ChannelWeixinHint => {
            push_str(&mut out, "iLink polling · experimental · requires phone plugin");
        },
        MessageId::ModelHintRecommended => {
            push_str(&mut out, "recommended");
        },
        MessageId::ModelHintLegacy => {
            push_str(&mut out, "legacy");
        },
        MessageId::TuiBusyWaitingModel => {
            push_str(&mut out, "Waiting for model…");
        },
        MessageId::TuiBusyGenerating => {
            push_str(&mut out, "Generating reply");
        },
        MessageId::TuiBusyThinking => {
            push_str(&mut out, "Thinking");
        },
        MessageId::TuiBusyMemoryExtract => {
            push_str(&mut out, "Extracting memory");
        },
        MessageId::TuiBusyCompress => {
            push_str(&mut out, "Compressing context");
        },
        MessageId::TuiInterrupted => {
            push_str(&mut out, "Interrupted");
        },
        MessageId::TuiContextReset => {
            push_str(&mut out, "Context cleared (transcript kept in database)");
        },
        MessageId::TuiModelActivated => {
            push_str(&mut out, "Model switched: ");
            push_arg(&mut out, args, 0);
            push_str(&mut out, " · ");
            push_arg(&mut out, args, 1);
            push_str(&mut out, " (saved to hi.toml)");
        },
        MessageId::TuiModelUnknown => {
            push_str(&mut out, "No matching provider instance — check hi.toml [ai.providers] (");
            push_arg(&mut out, args, 0);
            push_str(&mut out, ")");
        },
        MessageId::TuiStatusDefault => {
            push_str(&mut out, "←→ move cursor · Enter send · Ctrl+J newline · Ctrl+C exit · model ");
            push_arg(&mut out, args, 0);
        },
        MessageId::TuiStatusSlashMenu => {
            push_str(&mut out, "↑↓ select · Tab/Enter fill input");
        },
        MessageId::TuiStatusModelMenu => {
            push_str(&mut out, "↑↓ select model · Enter activate · Esc cancel");
        },
        MessageId::TuiSlashModel => {
            push_str(&mut out, "/model");
        },
        MessageId::TuiSlashModelDesc => {
            push_str(&mut out, "Pick and switch a configured model instance");
        },
        MessageId::TuiSlashReset => {
            push_str(&mut out, "/reset");
        },
        MessageId::TuiSlashResetDesc => {
            push_str(&mut out, "Clear agent-visible context (alias /clear)");
        },
        MessageId::TuiSlashCompact => {
            push_str(&mut out, "/compact");
        },
        MessageId::TuiSlashCompactDesc => {
            push_str(&mut out, "Force trim and LLM-summarize context");
        },
        MessageId::TuiSlashVerbose => {
            push_str(&mut out, "/verbose");
        },
        MessageId::TuiSlashVerboseDesc => {
            push_str(&mut out, "Toggle verbose: stream full think & tool output");
        },
        MessageId::TuiVerboseOn => {
            push_str(&mut out, "Verbose: on · think & tool output stream in full");
        },
        MessageId::TuiVerboseOff => {
            push_str(&mut out, "Verbose: off · summary lines only");
        },
        MessageId::TuiExitResumeHint => {
            push_str(&mut out, "Session saved · session=");
            push_arg(&mut out, args, 0);
            push_str(&mut out, " · resume: hi -s ");
            push_arg(&mut out, args, 0);
        },
        MessageId::TuiModelCurrentSuffix => {
            push_str(&mut out, " (current)");
        },
        MessageId::TuiApprovalTitle => {
            push_str(&mut out, "Approval");
        },
        MessageId::TuiApprovalApprove => {
            push_str(&mut out, "y approve");
        },
        MessageId::TuiApprovalReject => {
            push_str(&mut out, "n/Esc reject");
        },
        MessageId::TuiQueueWaiting => {
            push_str(&mut out, "Queued for the next turn: ");
            push_arg(&mut out, args, 0);
        },
        MessageId::ToolBudgetReminder => {
            push_str(&mut out, "[Budget: ");
            push_arg(&mut out, args, 0);
            push_str(&mut out, "/");
            push_arg(&mut out, args, 1);
            push_str(&mut out, " — ~");
            push_arg(&mut out, args, 2);
            push_str(&mut out, " turn(s) left; wrap up and reply soon.]");
        },
        MessageId::ToolBudgetForceSummary => {
            push_str(&mut out, "(System: tool-call limit reached for this turn. Summarize progress, findings, and remaining work without calling any tools. Reply in English.)");
        },
        MessageId::ToolBudgetSummaryPrefix => {
            push_str(&mut out, "(Tool-call limit reached (");
            push_arg(&mut out, args, 0);
            push_str(&mut out, "/");
            push_arg(&mut out, args, 0);
            push_str(&mut out, "); summary below)");
        },
    }
    to_string(&out)
}

} // verus!
