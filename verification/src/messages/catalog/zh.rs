//! Chinese message texts (English where no Chinese text exists).
use vstd::prelude::*;
use crate::messages::catalog::{
    arg_is_empty, arg_spec, debug_str, pad_end_spec, pad_start_spec, push_arg, push_debug,
    push_padded,
};
use crate::messages::id::MessageId;
use crate::text::{push_str, to_string, views};

verus! {

pub open spec fn message_zh(id: MessageId, args: Seq<Seq<char>>) -> Seq<char> {
    match id {
        MessageId::MissingApiKey => Seq::<char>::empty() + "missing LLM api_key in ~/.hi/hi.toml — 在 [ai.providers.<name>] 填写或运行 `hi setup`"@,
        MessageId::UnknownAiProvider => Seq::<char>::empty() + "unknown ai.provider "@ + debug_str(arg_spec(args, 0)) + " — 请使用 openai-compat | codex | anthropic | ollama"@,
        MessageId::UnknownModel => Seq::<char>::empty() + "未知模型 "@ + debug_str(arg_spec(args, 0)) + " — 可选："@ + arg_spec(args, 1),
        MessageId::ParseHiConfig => Seq::<char>::empty() + "解析 hi 配置失败："@ + arg_spec(args, 0),
        MessageId::SerializeHiConfig => Seq::<char>::empty() + "序列化 hi 配置失败"@,
        MessageId::ReadCurrentDir => Seq::<char>::empty() + "读取当前目录失败："@ + arg_spec(args, 0),
        MessageId::CreateWorkspace => Seq::<char>::empty() + "创建工作目录 "@ + arg_spec(args, 0) + " 失败："@ + arg_spec(args, 1),
        MessageId::InvalidWorkspace => Seq::<char>::empty() + "无效工作目录 "@ + arg_spec(args, 0) + "："@ + arg_spec(args, 1),
        MessageId::ConfigLock => Seq::<char>::empty() + "配置锁失败："@ + arg_spec(args, 0),
        MessageId::ProviderLock => Seq::<char>::empty() + "Provider 锁失败"@,
        MessageId::ApprovalPolicyLock => Seq::<char>::empty() + "审批策略锁失败"@,
        MessageId::BuildAgent => Seq::<char>::empty() + "构建 Agent 失败："@ + arg_spec(args, 0),
        MessageId::ConfigNotSetup => Seq::<char>::empty() + "尚未配置 — 请先运行 `hi setup`"@,
        MessageId::HiTomlPath => Seq::<char>::empty() + "hi.toml: "@ + arg_spec(args, 0),
        MessageId::ChannelsNotConfigured => Seq::<char>::empty() + "未配置消息渠道：运行 `hi gateway setup` 后再执行 `hi gateway`"@,
        MessageId::UnknownChannelId => Seq::<char>::empty() + "未知渠道 "@ + debug_str(arg_spec(args, 0)) + " — 当前可用：wecom、feishu、weixin 及对应 :<账户名> 形式"@,
        MessageId::WecomAccountMissing => Seq::<char>::empty() + "未配置 wecom 账户 "@ + debug_str(arg_spec(args, 0)) + " — 在 hi.toml 添加 [channels.wecom] 或 [channels.wecom."@ + arg_spec(args, 0) + "]"@,
        MessageId::FeishuAccountMissing => Seq::<char>::empty() + "未配置 feishu 账户 "@ + debug_str(arg_spec(args, 0)) + " — 在 hi.toml 添加 [channels.feishu] 或 [channels.feishu."@ + arg_spec(args, 0) + "]"@,
        MessageId::WeixinAccountMissing => Seq::<char>::empty() + "未配置 weixin 账户 "@ + debug_str(arg_spec(args, 0)) + " — 在 hi.toml 添加 [channels.weixin] 或 [channels.weixin."@ + arg_spec(args, 0) + "]"@,
        MessageId::MissingWecomSecret => Seq::<char>::empty() + "missing wecom secret — 运行 `hi gateway setup` 填写 secret"@,
        MessageId::MissingWecomBotId => Seq::<char>::empty() + "wecom.bot_id 为空 — 在企微管理后台创建「智能机器人」并填写 bot_id"@,
        MessageId::MissingFeishuAppId => Seq::<char>::empty() + "feishu.app_id 为空 — 运行 `hi gateway setup`"@,
        MessageId::MissingFeishuAppSecret => Seq::<char>::empty() + "feishu.app_secret 为空 — 运行 `hi gateway setup`"@,
        MessageId::FeishuAllowlistEmpty => Seq::<char>::empty() + "feishu allowlist 为空：无人可发消息，请在 hi.toml 配置 allow_from 或运行 `hi gateway setup`"@,
        MessageId::WecomAllowlistEmpty => Seq::<char>::empty() + "wecom allowlist 为空：无人可发消息，请在 hi.toml 配置 allow_from 或运行 `hi gateway setup`"@,
        MessageId::WecomDmPolicyOpenWarn => Seq::<char>::empty() + "wecom dm_policy=open：所有用户可触发 Agent；生产环境请改用 allowlist"@,
        MessageId::FeishuDmPolicyOpenWarn => Seq::<char>::empty() + "feishu dm_policy=open：所有用户可触发 Agent；生产环境请改用 allowlist"@,
        MessageId::DefaultWelcome => Seq::<char>::empty() + "你好，我是 hi，极致轻量化的个人 AI 助手，有什么可以帮您？"@,
        MessageId::SchemaIncompatible => Seq::<char>::empty() + arg_spec(args, 0),
        MessageId::MemorySearchDisabled => Seq::<char>::empty() + "memory_search: 记忆未启用或未持久化"@,
        MessageId::MemoryQueryEmpty => Seq::<char>::empty() + "memory_search: query 不能为空"@,
        MessageId::ToolIterationLimit => Seq::<char>::empty() + "本轮工具调用已达上限（"@ + arg_spec(args, 0) + " 轮），且无法生成总结；请缩小任务或调高 context.max_tool_iterations 后重试"@,
        MessageId::MemoryRecorded => Seq::<char>::empty() + "已记录记忆 #"@ + arg_spec(args, 0),
        MessageId::MemoryDuplicate => Seq::<char>::empty() + "记忆已存在（重复已跳过）"@,
        MessageId::EmptyChannelReply => Seq::<char>::empty() + "Agent 返回空回复"@,
        MessageId::EmergencyTrimSummary => Seq::<char>::empty() + "紧急裁剪：截短 "@ + arg_spec(args, 0) + " 条消息"@,
        MessageId::ExtractKnotsFailed => Seq::<char>::empty() + "结绳抽取失败："@ + arg_spec(args, 0),
        MessageId::ApprovalPromptBash => Seq::<char>::empty() + "⚠️ 需确认，请回复「确认」执行或「取消」放弃:\nbash: "@ + arg_spec(args, 0) + "\n→ 加入 "@ + arg_spec(args, 1),
        MessageId::ApprovalPromptFile => Seq::<char>::empty() + "⚠️ 需确认，请回复「确认」执行或「取消」放弃:\n"@ + arg_spec(args, 0) + ": "@ + arg_spec(args, 1) + "\n→ 加入 "@ + arg_spec(args, 2),
        MessageId::ApprovalPromptGeneric => Seq::<char>::empty() + "⚠️ 需确认，请回复「确认」执行或「取消」放弃:\n"@ + arg_spec(args, 0) + ": "@ + arg_spec(args, 1) + "\n→ 加入 "@ + arg_spec(args, 2),
        MessageId::GatewayThinking => Seq::<char>::empty() + "思考中…"@,
        MessageId::GatewayBusy => Seq::<char>::empty() + "上一条还在处理，请稍候…"@,
        MessageId::GatewayTurnAck => Seq::<char>::empty() + "收到，思考中…"@,
        MessageId::GatewayProcessFailed => Seq::<char>::empty() + "处理失败："@ + arg_spec(args, 0) + "\n请稍后重试。"@,
        MessageId::GatewayUnsupportedMessage => Seq::<char>::empty() + "暂不支持 "@ + arg_spec(args, 0) + " 消息，请发送文本。"@,
        MessageId::GatewayCheckOkWecom => Seq::<char>::empty() + "企业微信网关预检通过"@,
        MessageId::GatewayCheckOkFeishu => Seq::<char>::empty() + "飞书网关预检通过"@,
        MessageId::GatewayCheckOkWeixin => Seq::<char>::empty() + "个人微信 iLink 网关预检通过"@,
        MessageId::GatewayCheckOkGeneric => Seq::<char>::empty() + "网关预检通过"@,
        MessageId::GatewayStarted => Seq::<char>::empty() + "gateway 已启动 (pid "@ + arg_spec(args, 0) + ")"@,
        MessageId::GatewayLogsDir => Seq::<char>::empty() + "日志目录: "@ + arg_spec(args, 0),
        MessageId::GatewayStopHint => Seq::<char>::empty() + "停止: hi gateway stop"@,
        MessageId::GatewayNotRunning => Seq::<char>::empty() + "gateway 未运行"@,
        MessageId::GatewayStopped => Seq::<char>::empty() + "gateway 已停止 (pid "@ + arg_spec(args, 0) + ")"@,
        MessageId::GatewayForceStopped => Seq::<char>::empty() + "gateway 已强制停止 (pid "@ + arg_spec(args, 0) + ")"@,
        MessageId::GatewayPidFile => Seq::<char>::empty() + "pid 文件: "@ + arg_spec(args, 0),
        MessageId::GatewayWorkspace => Seq::<char>::empty() + "workspace: "@ + arg_spec(args, 0),
        MessageId::GatewayChannels => Seq::<char>::empty() + "渠道: "@ + arg_spec(args, 0),
        MessageId::GatewayChannelsNone => Seq::<char>::empty() + "渠道: （未配置 — 运行 hi gateway setup）"@,
        MessageId::GatewayStatusRunning => Seq::<char>::empty() + "状态: 运行中 (pid "@ + arg_spec(args, 0) + ")"@,
        MessageId::GatewayStatusStopped => Seq::<char>::empty() + "状态: 未运行"@,
        MessageId::GatewayRecentLog => Seq::<char>::empty() + "最近日志: "@ + arg_spec(args, 0),
        MessageId::GatewayReloadSent => Seq::<char>::empty() + "已通知 gateway 重新加载 hi.toml（[ai]、[tools.approvals]）(pid "@ + arg_spec(args, 0) + ")"@,
        MessageId::GatewayStartFailed => Seq::<char>::empty() + "启动 gateway 失败: "@ + arg_spec(args, 0),
        MessageId::GatewayPidParseFailed => Seq::<char>::empty() + "无法解析 gateway pid: "@ + arg_spec(args, 0),
        MessageId::GatewayStopSignalFailed => Seq::<char>::empty() + "发送停止信号失败 (pid "@ + arg_spec(args, 0) + ")"@,
        MessageId::GatewayStopFailed => Seq::<char>::empty() + "停止 gateway 失败 (pid "@ + arg_spec(args, 0) + ")"@,
        MessageId::GatewayReloadUnixOnly => Seq::<char>::empty() + "gateway reload 当前仅支持 Unix，请使用 `hi gateway restart`"@,
        MessageId::GatewayReloadSignalFailed => Seq::<char>::empty() + "发送 reload 信号失败 (pid "@ + arg_spec(args, 0) + ")"@,
        MessageId::GatewayRecentLogLine => Seq::<char>::empty() + "最近日志: "@ + arg_spec(args, 0),
        MessageId::ChatBanner => Seq::<char>::empty() + "hi chat — Enter 发送 (/quit /reset /compact) | session="@ + arg_spec(args, 0) + " | model="@ + arg_spec(args, 1) + " | cwd="@ + arg_spec(args, 2),
        MessageId::ContextReset => Seq::<char>::empty() + "上下文已清空（完整 transcript 仍保留在数据库，可用 hi session show 查看）"@,
        MessageId::ModelSlashTuiOnly => Seq::<char>::empty() + "/model 仅 TUI 可用，请使用 hi 或 hi tui"@,
        MessageId::UnknownChatArg => Seq::<char>::empty() + "未知参数 `"@ + arg_spec(args, 0) + "`。单轮：`hi chat 词1 词2 …`；多轮：`hi chat`"@,
        MessageId::SessionListHeader => Seq::<char>::empty() + arg_spec(args, 0) + " 个会话"@,
        MessageId::SessionListRow => Seq::<char>::empty() + pad_end_spec(arg_spec(args, 0), 24) + " "@ + pad_start_spec(arg_spec(args, 1), 8) + " "@ + pad_start_spec(arg_spec(args, 2), 8) + "  "@ + arg_spec(args, 3),
        MessageId::SessionEmpty => Seq::<char>::empty() + "（无会话）"@,
        MessageId::SessionNotFound => Seq::<char>::empty() + "（空会话或无此 session: "@ + arg_spec(args, 0) + "）"@,
        MessageId::SessionExported => Seq::<char>::empty() + "已导出 "@ + arg_spec(args, 0) + " 条消息 → "@ + arg_spec(args, 1),
        MessageId::SessionDeleted => Seq::<char>::empty() + "已删除 session "@ + arg_spec(args, 0) + " 及其全部 messages"@,
        MessageId::SessionPurgeNeedConfirm => Seq::<char>::empty() + "拒绝执行：须加 --confirm 才会永久删除 session "@ + arg_spec(args, 0),
        MessageId::CompressionListHeader => Seq::<char>::empty() + "压缩记录"@,
        MessageId::CompressionRow => Seq::<char>::empty() + "#"@ + arg_spec(args, 0) + "  msgs "@ + arg_spec(args, 1) + ".."@ + arg_spec(args, 2) + "  ("@ + arg_spec(args, 3) + " rows)  "@ + arg_spec(args, 4),
        MessageId::CompressionDetailHeader => Seq::<char>::empty() + "压缩 #"@ + arg_spec(args, 0),
        MessageId::CompressionDetailSummary => Seq::<char>::empty() + arg_spec(args, 0),
        MessageId::MemoryListEmpty => Seq::<char>::empty() + "（无结绳记忆，owner="@ + arg_spec(args, 0) + "）"@,
        MessageId::MemoryAdded => Seq::<char>::empty() + "已打结 #"@ + arg_spec(args, 0),
        MessageId::MemoryForgotten => Seq::<char>::empty() + "已遗忘结 #"@ + arg_spec(args, 0),
        MessageId::MemoryReinforced => Seq::<char>::empty() + "已强化结 #"@ + arg_spec(args, 0),
        MessageId::MemoryExtractNone => Seq::<char>::empty() + "会话 "@ + arg_spec(args, 0) + " 无 in_context 消息可抽取"@,
        MessageId::MemoryExtractDone => Seq::<char>::empty() + "抽取完成：新增 "@ + arg_spec(args, 0) + "，跳过 "@ + arg_spec(args, 1) + "，取代 "@ + arg_spec(args, 2),
        MessageId::MemoryListRow => Seq::<char>::empty() + pad_start_spec(arg_spec(args, 0), 6) + "  "@ + pad_end_spec(arg_spec(args, 1), 12) + " "@ + pad_end_spec(arg_spec(args, 2), 10) + " "@ + pad_start_spec(arg_spec(args, 3), 5) + "  "@ + arg_spec(args, 4),
        MessageId::MemoryDisabledInConfig => Seq::<char>::empty() + "[memory].enabled = false，请在 hi.toml 中启用记忆"@,
        MessageId::MemoryUnknownKind => Seq::<char>::empty() + "未知 kind: "@ + arg_spec(args, 0) + "（preference|fact|decision|task|procedure）"@,
        MessageId::LlmHttpError => if arg_spec(args, 1).len() == 0 {
            Seq::<char>::empty() + "大模型 API 请求失败（HTTP "@ + arg_spec(args, 0) + "）。"@ + arg_spec(args, 2)
        } else {
            Seq::<char>::empty() + "大模型 API 请求失败（HTTP "@ + arg_spec(args, 0) + "）："@ + arg_spec(args, 1) + "\n"@ + arg_spec(args, 2)
        },
        MessageId::LlmTransportError => Seq::<char>::empty() + "无法连接大模型服务，请检查网络、代理，以及 hi.toml 中的 base_url。\n详情："@ + arg_spec(args, 0),
        MessageId::LlmReadBodyError => Seq::<char>::empty() + "读取大模型响应失败，连接可能已中断。\n详情："@ + arg_spec(args, 0),
        MessageId::LlmParseError => Seq::<char>::empty() + "大模型返回了无法解析的响应，可能是服务异常或 model 名称不正确。\n详情："@ + arg_spec(args, 0),
        MessageId::LlmStreamError => Seq::<char>::empty() + "读取大模型流式响应时出错，连接可能已中断。\n详情："@ + arg_spec(args, 0),
        MessageId::AnthropicNeedsApiKey => Seq::<char>::empty() + "Anthropic 需要 API Key，请运行 hi setup 配置。"@,
        MessageId::StdinApprovalHeader => Seq::<char>::empty() + "⚠️  需要确认:"@,
        MessageId::StdinApprovalPrompt => Seq::<char>::empty() + "Approve? [y/N]: "@,
        MessageId::WizardWritten => Seq::<char>::empty() + "已写入 "@ + arg_spec(args, 0),
        MessageId::WizardFinishSteps => Seq::<char>::empty() + arg_spec(args, 0),
        MessageId::WizardConfigPathLine => Seq::<char>::empty() + "配置文件: "@ + arg_spec(args, 0),
        MessageId::WizardSelectNumberPrompt => Seq::<char>::empty() + "请选择 ["@ + arg_spec(args, 0) + "]"@,
        MessageId::WizardWriteFailed => Seq::<char>::empty() + "写入失败"@,
        MessageId::WizardFinishTitle => Seq::<char>::empty() + "完成"@,
        MessageId::WizardCancelled => Seq::<char>::empty() + "已取消配置向导"@,
        MessageId::SetupTitle => Seq::<char>::empty() + "hi · 配置向导"@,
        MessageId::SetupUpdateTitle => Seq::<char>::empty() + "hi · 更新配置"@,
        MessageId::SetupNotePath => Seq::<char>::empty() + "写入 "@ + arg_spec(args, 0) + "。\nLLM 必填；消息渠道可选，稍后也可 hi gateway setup 补配。\n密钥仅存本机，勿提交 Git。\n回车保留当前值；带「返回」的菜单可选上一项。"@,
        MessageId::SetupNoteRepeat => Seq::<char>::empty() + "回车保留当前值；带「返回」的菜单可选上一项。"@,
        MessageId::SetupSummaryProvider => Seq::<char>::empty() + "Provider："@ + arg_spec(args, 0),
        MessageId::SetupSummaryModel => Seq::<char>::empty() + "模型："@ + arg_spec(args, 0),
        MessageId::SetupSummaryWorkspace => Seq::<char>::empty() + "Gateway 工作目录："@ + arg_spec(args, 0),
        MessageId::SetupSummaryApiKeySet => Seq::<char>::empty() + "API Key：已设置"@,
        MessageId::SetupSummaryApiKeyMissing => Seq::<char>::empty() + "API Key：未设置"@,
        MessageId::SetupWorkspaceNote => Seq::<char>::empty() + "此项为 hi gateway 远程消息渠道使用的工作目录。\nhi / hi tui / hi chat 使用命令行当前工作目录，与此项无关。"@,
        MessageId::SetupWorkspacePrompt => Seq::<char>::empty() + "Gateway 工作目录（workspace）"@,
        MessageId::SetupProviderPrompt => Seq::<char>::empty() + "请选择大模型 Provider"@,
        MessageId::SetupOllamaUrlPrompt => Seq::<char>::empty() + "Ollama 服务地址（不含 /v1 后缀）"@,
        MessageId::SetupBaseUrlPrompt => Seq::<char>::empty() + "API 基础地址 base_url（留空则使用 Provider 默认值）"@,
        MessageId::SetupDeepseekKeyNote => Seq::<char>::empty() + "DeepSeek API Key\n在 https://platform.deepseek.com/api_keys 申请 API Key。\n官方文档：https://api-docs.deepseek.com/zh-cn/"@,
        MessageId::SetupModelPrompt => Seq::<char>::empty() + "请选择模型"@,
        MessageId::SetupModelCustom => Seq::<char>::empty() + "自定义模型名称"@,
        MessageId::SetupModelFetching => Seq::<char>::empty() + "Fetching available models…"@,
        MessageId::SetupModelFetchDone => Seq::<char>::empty() + "Fetched "@ + arg_spec(args, 0) + " models"@,
        MessageId::SetupModelFetchFailedTitle => Seq::<char>::empty() + "Failed to fetch model list"@,
        MessageId::SetupModelFetchFailedNote => Seq::<char>::empty() + "Falling back to built-in list / manual input.\nDetail: "@ + arg_spec(args, 0),
        MessageId::SetupApiKeyPrompt => Seq::<char>::empty() + "API Key"@,
        MessageId::SetupSaving => Seq::<char>::empty() + "正在保存配置…"@,
        MessageId::SetupFinishNoGateway => Seq::<char>::empty() + "配置已保存。\n\n  hi chat 你好           试聊验收\n  hi                     终端 UI\n  hi gateway setup       以后补配消息渠道\n  hi config              查看配置（密钥脱敏）\n\n工具确认规则已写入 hi.toml，运行时确认会自动追加。"@,
        MessageId::SetupFinishWithGateway => Seq::<char>::empty() + "配置已保存。\n\n  hi chat 你好           本地试聊\n  hi gateway --check     渠道连接预检\n  hi gateway             启动网关\n  hi gateway setup       新增或修改渠道\n  hi config              查看配置（密钥脱敏）\n\nGateway 工具在 workspace 目录执行；本地 chat/tui 在当前目录。\n工具确认规则已写入 hi.toml，运行时确认会自动追加。"@,
        MessageId::NoteTitleSetup => Seq::<char>::empty() + "配置向导"@,
        MessageId::NoteTitleLlm => Seq::<char>::empty() + "大模型"@,
        MessageId::NoteTitleDeepseekApiKey => Seq::<char>::empty() + "DeepSeek API Key"@,
        MessageId::SetupCurrentSummaryTitle => Seq::<char>::empty() + "当前配置摘要"@,
        MessageId::SetupSummaryChannels => Seq::<char>::empty() + "消息渠道："@ + arg_spec(args, 0),
        MessageId::SetupSummaryMaskedKey => Seq::<char>::empty() + "API Key：已设置（****）"@,
        MessageId::SetupLlmSummaryBody => Seq::<char>::empty() + "Provider："@ + arg_spec(args, 0) + "\n模型："@ + arg_spec(args, 1) + "\n"@ + arg_spec(args, 2) + "\n\n继续配置消息渠道 →"@,
        MessageId::SetupCodexNotLoggedInTitle => Seq::<char>::empty() + "OpenAI Codex 未登录"@,
        MessageId::SetupCodexSkippedTitle => Seq::<char>::empty() + "已跳过 Codex"@,
        MessageId::SetupCodexSkippedNote => Seq::<char>::empty() + "本次未切换到 Codex，请重选 Provider。\n完成 `codex login` 后重新选择 OpenAI Codex 即可。"@,
        MessageId::SetupCodexModelPrompt => Seq::<char>::empty() + "选择 Codex 模型"@,
        MessageId::SetupCodexLoginHint => Seq::<char>::empty() + "未检测到本地 Codex 登录凭证：\n  "@ + arg_spec(args, 0) + "\n\n请先用 OpenAI Codex CLI 登录（ChatGPT 账号）：\n  codex login\n\n登录完成后重新运行 `hi setup`，选择 OpenAI Codex 即可进入模型选择。"@,
        MessageId::ProviderDeepseekHint => Seq::<char>::empty() + "官方 API（platform.deepseek.com）"@,
        MessageId::ProviderOpenaiCompatLabel => Seq::<char>::empty() + "OpenAI 兼容接口"@,
        MessageId::ProviderOpenaiCompatHint => Seq::<char>::empty() + "OpenAI、Moonshot、自部署 OpenAI 兼容服务"@,
        MessageId::ProviderCodexHint => Seq::<char>::empty() + "复用本地 Codex CLI 登录（ChatGPT），无需 API Key"@,
        MessageId::ProviderOllamaLabel => Seq::<char>::empty() + "Ollama 本地推理"@,
        MessageId::ProviderOllamaHint => Seq::<char>::empty() + "本机部署，无需 API Key"@,
        MessageId::ModelHintFlagship => Seq::<char>::empty() + "旗舰"@,
        MessageId::ModelHintReasonerDeprecated => Seq::<char>::empty() + "思考模式，2026/07 弃用"@,
        MessageId::ModelHintDeprecatedJuly2026 => Seq::<char>::empty() + "旧版，2026/07 弃用"@,
        MessageId::ModelHintSonnet4Recommended => Seq::<char>::empty() + "Sonnet 4（推荐）"@,
        MessageId::ModelBackToProviderLabel => Seq::<char>::empty() + "← 返回重新选择 Provider"@,
        MessageId::ModelBackToProviderHint => Seq::<char>::empty() + "回到厂商列表"@,
        MessageId::ModelCustomLabel => Seq::<char>::empty() + "自定义模型名…"@,
        MessageId::ModelCustomHint => Seq::<char>::empty() + "手动输入 model 名称"@,
        MessageId::SetupModelNamePrompt => Seq::<char>::empty() + "模型名称（model）"@,
        MessageId::GatewaySetupTitle => Seq::<char>::empty() + "hi · 消息渠道配置"@,
        MessageId::GatewaySetupUpdateTitle => Seq::<char>::empty() + "hi · 更新消息渠道配置"@,
        MessageId::GatewaySetupNote => Seq::<char>::empty() + "本向导将写入 "@ + arg_spec(args, 0) + " 中的消息渠道相关配置。\n\n大模型请用 `hi setup`；此处用于新增或更新消息渠道。\n带默认值的项直接按回车即可保留当前值。"@,
        MessageId::GatewaySetupChannelPrompt => Seq::<char>::empty() + "请选择消息渠道"@,
        MessageId::GatewaySetupWecomCredsNote => Seq::<char>::empty() + "请在企业微信管理后台「智能机器人 → 长连接模式」中获取 Bot ID 与 Secret。\nSecret 仅展示一次，请妥善保管，勿提交至版本库。"@,
        MessageId::GatewaySetupBotIdPrompt => Seq::<char>::empty() + "Bot ID（wecom.bot_id）"@,
        MessageId::GatewaySetupSecretPrompt => Seq::<char>::empty() + "Bot Secret（wecom.secret）"@,
        MessageId::GatewaySetupAllowlistPrompt => Seq::<char>::empty() + "是否启用私信白名单？"@,
        MessageId::GatewaySetupAllowlistUsersPrompt => Seq::<char>::empty() + "允许发消息的用户 ID（"@ + arg_spec(args, 0) + "，逗号分隔，至少一个）"@,
        MessageId::GatewaySetupOpenModeNote => Seq::<char>::empty() + "开放模式：所有用户均可触发 Agent。\n仅建议在开发联调时使用；生产环境请改回 allowlist。"@,
        MessageId::GatewaySetupWelcomePrompt => Seq::<char>::empty() + "欢迎语（留空则使用系统默认）"@,
        MessageId::GatewaySetupSaving => Seq::<char>::empty() + "正在保存配置…"@,
        MessageId::GatewaySetupFinish => Seq::<char>::empty() + "消息渠道配置已保存。\n\n后续步骤：\n  hi gateway --check    连接预检\n  hi gateway            启动网关\n  hi config             查看配置（密钥脱敏）"@,
        MessageId::GatewaySetupNeedBaseConfig => Seq::<char>::empty() + "请先完成基础配置：\n  hi setup\n\n配置文件："@ + arg_spec(args, 0),
        MessageId::GatewaySetupNoChannels => Seq::<char>::empty() + "当前版本未提供可用的消息渠道"@,
        MessageId::GatewaySetupFeishuCredsNote => Seq::<char>::empty() + "请在飞书开放平台（https://open.feishu.cn/app）创建企业自建应用，\n开启机器人能力，订阅 im.message.receive_v1，事件订阅方式选「使用长连接接收事件」。\n权限：单聊消息、群聊 @ 消息（或群聊全部消息）、发送消息。\n将机器人加入目标群聊后即可在群内对话；App Secret 勿提交至版本库。"@,
        MessageId::GatewaySetupWeixinCredsNote => Seq::<char>::empty() + "个人微信 iLink（实验性）：\n1. 手机微信升级到 8.0.70+（iOS）/ 8.0.69+（Android）\n2. 我 → 设置 → 插件 → 启用 iLink 插件\n3. 本向导将生成二维码，用微信扫码授权\n4. 建议用小号绑定；bot_token 勿提交至版本库\n详见 docs/guides/weixin-ilink-integration.md"@,
        MessageId::GatewaySetupGenericCredsNote => Seq::<char>::empty() + "请按平台文档准备连接凭证。"@,
        MessageId::GatewaySetupFeishuAppIdPrompt => Seq::<char>::empty() + "App ID（feishu.app_id）"@,
        MessageId::GatewaySetupFeishuSecretPrompt => Seq::<char>::empty() + "App Secret（feishu.app_secret）"@,
        MessageId::GatewaySetupFeishuDomainPrompt => Seq::<char>::empty() + "API 域名（留空默认 open.feishu.cn；国际版 Lark 填 open.larksuite.com）"@,
        MessageId::GatewaySetupFeishuMentionPrompt => Seq::<char>::empty() + "群聊是否仅响应 @机器人（mention_enabled，默认 true）"@,
        MessageId::GatewaySetupFeishuMentionOnTitle => Seq::<char>::empty() + "@mention 说明"@,
        MessageId::GatewaySetupFeishuMentionOnNote => Seq::<char>::empty() + "启用后，群聊中需 @机器人 才会回复（权限：im:message.group_at_msg:readonly）。\n可随时在 hi.toml 将 mention_enabled 改为 false 以响应群内所有消息。"@,
        MessageId::GatewaySetupFeishuMentionOffTitle => Seq::<char>::empty() + "群聊自由对话"@,
        MessageId::GatewaySetupFeishuMentionOffNote => Seq::<char>::empty() + "关闭 @ 限制后，机器人在群内可响应所有文本消息。\n请在飞书开放平台开通 im:message.group_msg 权限并重新发版。"@,
        MessageId::GatewaySetupWeixinRiskTitle => Seq::<char>::empty() + "风险提示"@,
        MessageId::GatewaySetupWeixinRiskNote => Seq::<char>::empty() + "个人微信 iLink 处于灰度测试，腾讯可随时调整或终止服务。\n建议用小号绑定；请阅读微信 iLink 功能使用条款。"@,
        MessageId::GatewaySetupWeixinReloginPrompt => Seq::<char>::empty() + "已存在 bot_token，是否重新扫码登录？"@,
        MessageId::GatewaySetupWeixinLoginSuccessTitle => Seq::<char>::empty() + "登录成功"@,
        MessageId::GatewaySetupWeixinLoginSuccessNote => Seq::<char>::empty() + "已绑定微信用户："@ + arg_spec(args, 0) + "\n启动 `hi gateway` 后，在手机微信 iLink 插件中私聊即可。"@,
        MessageId::GatewaySetupAllowlistMissingTitle => Seq::<char>::empty() + "需要用户 ID"@,
        MessageId::GatewaySetupAllowlistMissingNote => Seq::<char>::empty() + "allowlist 模式下至少填写一个"@ + arg_spec(args, 0) + "。\n飞书 open_id 可在事件日志或 API 调试中查看；企微 userid 见管理后台。"@,
        MessageId::GatewaySetupCredentialNoteTitle => Seq::<char>::empty() + "凭证说明"@,
        MessageId::GatewaySetupExistingChannelsTitle => Seq::<char>::empty() + "已配置的消息渠道"@,
        MessageId::GatewaySetupExistingChannelsNote => Seq::<char>::empty() + "当前："@ + arg_spec(args, 0) + "\n选择「现在配置」将更新 default 实例；新增其它实例请用 `hi gateway setup`。"@,
        MessageId::GatewaySetupGatePrompt => Seq::<char>::empty() + "是否配置消息渠道？"@,
        MessageId::GatewaySetupGateConfigureLabel => Seq::<char>::empty() + "现在配置"@,
        MessageId::GatewaySetupGateConfigureHint => Seq::<char>::empty() + "企业微信、飞书或个人微信"@,
        MessageId::GatewaySetupGateSkipLabel => Seq::<char>::empty() + "暂不配置，仅本地使用 hi chat / tui"@,
        MessageId::GatewaySetupGateSkipHint => Seq::<char>::empty() + "稍后可运行 hi gateway setup"@,
        MessageId::ChannelSummaryWecom => Seq::<char>::empty() + "企业微信"@,
        MessageId::ChannelSummaryFeishu => Seq::<char>::empty() + "飞书"@,
        MessageId::ChannelSummaryWeixin => Seq::<char>::empty() + "个人微信"@,
        MessageId::ChannelSummaryNone => Seq::<char>::empty() + "未配置"@,
        MessageId::QrGenerateFailed => Seq::<char>::empty() + "生成终端二维码失败: "@ + arg_spec(args, 0),
        MessageId::WizardBack => Seq::<char>::empty() + "← 返回"@,
        MessageId::WizardSelectEmpty => Seq::<char>::empty() + arg_spec(args, 0) + ": 没有可选项"@,
        MessageId::WizardPasswordKeepSuffix => Seq::<char>::empty() + "（留空表示保持不变）"@,
        MessageId::NoteTitleWorkspace => Seq::<char>::empty() + "工作目录"@,
        MessageId::NoteTitleGatewaySetup => Seq::<char>::empty() + "消息渠道配置"@,
        MessageId::NoteTitleDmPolicy => Seq::<char>::empty() + "私信策略"@,
        MessageId::NoteTitleQr => Seq::<char>::empty() + "二维码"@,
        MessageId::WeixinQrPrompt => Seq::<char>::empty() + "请用微信扫描下方二维码："@,
        MessageId::WeixinQrWaitingNoteTitle => Seq::<char>::empty() + "二维码"@,
        MessageId::WeixinQrWaiting => Seq::<char>::empty() + "等待扫码（最长 3 分钟）…"@,
        MessageId::WeixinQrScanned => Seq::<char>::empty() + "已扫码，请在手机上确认…"@,
        MessageId::WeixinQrExpired => Seq::<char>::empty() + "二维码已过期"@,
        MessageId::ChannelWecomLabel => Seq::<char>::empty() + "企业微信智能机器人"@,
        MessageId::ChannelWecomHint => Seq::<char>::empty() + "WebSocket 长连接 · 已接入"@,
        MessageId::ChannelFeishuLabel => Seq::<char>::empty() + "飞书机器人"@,
        MessageId::ChannelFeishuHint => Seq::<char>::empty() + "长连接 WebSocket · 已接入"@,
        MessageId::ChannelWeixinLabel => Seq::<char>::empty() + "个人微信（iLink）"@,
        MessageId::ChannelWeixinHint => Seq::<char>::empty() + "iLink 长轮询 · 实验性 · 需手机插件灰度"@,
        MessageId::ModelHintRecommended => Seq::<char>::empty() + "推荐"@,
        MessageId::ModelHintLegacy => Seq::<char>::empty() + "旧版"@,
        MessageId::TuiBusyWaitingModel => Seq::<char>::empty() + "等待模型…"@,
        MessageId::TuiBusyGenerating => Seq::<char>::empty() + "生成回复"@,
        MessageId::TuiBusyThinking => Seq::<char>::empty() + "思考"@,
        MessageId::TuiBusyMemoryExtract => Seq::<char>::empty() + "结绳记事"@,
        MessageId::TuiBusyCompress => Seq::<char>::empty() + "压缩上下文"@,
        MessageId::TuiInterrupted => Seq::<char>::empty() + "已中断"@,
        MessageId::TuiContextReset => Seq::<char>::empty() + "上下文已清空（transcript 仍保留在数据库）"@,
        MessageId::TuiModelActivated => Seq::<char>::empty() + "已切换模型："@ + arg_spec(args, 0) + " · "@ + arg_spec(args, 1) + "（已写入 hi.toml）"@,
        MessageId::TuiModelUnknown => Seq::<char>::empty() + "未匹配到模型实例 — 检查 hi.toml [ai.providers]（"@ + arg_spec(args, 0) + "）"@,
        MessageId::TuiStatusDefault => Seq::<char>::empty() + "←→ 移动光标 · Enter 发送 · Shift+Enter 换行 · Ctrl+C 退出 · model "@ + arg_spec(args, 0),
        MessageId::TuiStatusSlashMenu => Seq::<char>::empty() + "↑↓ 选择 · Tab/Enter 填入输入框"@,
        MessageId::TuiStatusModelMenu => Seq::<char>::empty() + "↑↓ 选择模型 · Enter 激活 · Esc 取消"@,
        MessageId::TuiSlashModel => Seq::<char>::empty() + "/model"@,
        MessageId::TuiSlashModelDesc => Seq::<char>::empty() + "选择并切换已配置的模型实例"@,
        MessageId::TuiSlashReset => Seq::<char>::empty() + "/reset"@,
        MessageId::TuiSlashResetDesc => Seq::<char>::empty() + "清空 Agent 可见上下文（别名 /clear）"@,
        MessageId::TuiSlashCompact => Seq::<char>::empty() + "/compact"@,
        MessageId::TuiSlashCompactDesc => Seq::<char>::empty() + "强制裁剪并 LLM 摘要上下文"@,
        MessageId::TuiSlashVerbose => Seq::<char>::empty() + "/verbose"@,
        MessageId::TuiSlashVerboseDesc => Seq::<char>::empty() + "Toggle verbose: stream full think & tool output"@,
        MessageId::TuiVerboseOn => Seq::<char>::empty() + "Verbose: on · think & tool output stream in full"@,
        MessageId::TuiVerboseOff => Seq::<char>::empty() + "Verbose: off · summary lines only"@,
        MessageId::TuiExitResumeHint => Seq::<char>::empty() + "Session saved · session="@ + arg_spec(args, 0) + " · resume: hi -s "@ + arg_spec(args, 0),
        MessageId::TuiModelCurrentSuffix => Seq::<char>::empty() + " (当前)"@,
        MessageId::TuiApprovalTitle => Seq::<char>::empty() + "审批"@,
        MessageId::TuiApprovalApprove => Seq::<char>::empty() + "y 批准"@,
        MessageId::TuiApprovalReject => Seq::<char>::empty() + "n/Esc 拒绝"@,
        MessageId::TuiQueueWaiting => Seq::<char>::empty() + "下一条排队等待: "@ + arg_spec(args, 0),
        MessageId::ToolBudgetReminder => Seq::<char>::empty() + "[预算提醒: "@ + arg_spec(args, 0) + "/"@ + arg_spec(args, 1) + "，剩余约 "@ + arg_spec(args, 2) + " 轮，请开始收束并准备回复。]"@,
        MessageId::ToolBudgetForceSummary => Seq::<char>::empty() + "（系统：本轮工具调用次数已达上限。请根据以上对话与工具结果，不再调用任何工具，向用户总结目前已完成的工作、关键发现和尚未完成的部分。用简体中文回复。）"@,
        MessageId::ToolBudgetSummaryPrefix => Seq::<char>::empty() + "（本轮工具调用已达上限（"@ + arg_spec(args, 0) + "/"@ + arg_spec(args, 0) + "），以下为阶段性总结）"@,
    }
}

#[verifier::rlimit(50)]
pub fn format_zh(id: MessageId, args: &[String]) -> (r: String)
    ensures
        r@ == message_zh(id, views(args@)),
{
    let mut out: Vec<char> = Vec::new();
    match id {
        MessageId::MissingApiKey => {
            push_str(&mut out, "missing LLM api_key in ~/.hi/hi.toml — 在 [ai.providers.<name>] 填写或运行 `hi setup`");
        },
        MessageId::UnknownAiProvider => {
            push_str(&mut out, "unknown ai.provider ");
            push_debug(&mut out, args, 0);
            push_str(&mut out, " — 请使用 openai-compat | codex | anthropic | ollama");
        },
        MessageId::UnknownModel => {
            push_str(&mut out, "未知模型 ");
            push_debug(&mut out, args, 0);
            push_str(&mut out, " — 可选：");
            push_arg(&mut out, args, 1);
        },
        MessageId::ParseHiConfig => {
            push_str(&mut out, "解析 hi 配置失败：");
            push_arg(&mut out, args, 0);
        },
        MessageId::SerializeHiConfig => {
            push_str(&mut out, "序列化 hi 配置失败");
        },
        MessageId::ReadCurrentDir => {
            push_str(&mut out, "读取当前目录失败：");
            push_arg(&mut out, args, 0);
        },
        MessageId::CreateWorkspace => {
            push_str(&mut out, "创建工作目录 ");
            push_arg(&mut out, args, 0);
            push_str(&mut out, " 失败：");
            push_arg(&mut out, args, 1);
        },
        MessageId::InvalidWorkspace => {
            push_str(&mut out, "无效工作目录 ");
            push_arg(&mut out, args, 0);
            push_str(&mut out, "：");
            push_arg(&mut out, args, 1);
        },
        MessageId::ConfigLock => {
            push_str(&mut out, "配置锁失败：");
            push_arg(&mut out, args, 0);
        },
        MessageId::ProviderLock => {
            push_str(&mut out, "Provider 锁失败");
        },
        MessageId::ApprovalPolicyLock => {
            push_str(&mut out, "审批策略锁失败");
        },
        MessageId::BuildAgent => {
            push_str(&mut out, "构建 Agent 失败：");
            push_arg(&mut out, args, 0);
        },
        MessageId::ConfigNotSetup => {
            push_str(&mut out, "尚未配置 — 请先运行 `hi setup`");
        },
        MessageId::HiTomlPath => {
            push_str(&mut out, "hi.toml: ");
            push_arg(&mut out, args, 0);
        },
        MessageId::ChannelsNotConfigured => {
            push_str(&mut out, "未配置消息渠道：运行 `hi gateway setup` 后再执行 `hi gateway`");
        },
        MessageId::UnknownChannelId => {
            push_str(&mut out, "未知渠道 ");
            push_debug(&mut out, args, 0);
            push_str(&mut out, " — 当前可用：wecom、feishu、weixin 及对应 :<账户名> 形式");
        },
        MessageId::WecomAccountMissing => {
            push_str(&mut out, "未配置 wecom 账户 ");
            push_debug(&mut out, args, 0);
            push_str(&mut out, " — 在 hi.toml 添加 [channels.wecom] 或 [channels.wecom.");
            push_arg(&mut out, args, 0);
            push_str(&mut out, "]");
        },
        MessageId::FeishuAccountMissing => {
            push_str(&mut out, "未配置 feishu 账户 ");
            push_debug(&mut out, args, 0);
            push_str(&mut out, " — 在 hi.toml 添加 [channels.feishu] 或 [channels.feishu.");
            push_arg(&mut out, args, 0);
            push_str(&mut out, "]");
        },
        MessageId::WeixinAccountMissing => {
            push_str(&mut out, "未配置 weixin 账户 ");
            push_debug(&mut out, args, 0);
            push_str(&mut out, " — 在 hi.toml 添加 [channels.weixin] 或 [channels.weixin.");
            push_arg(&mut out, args, 0);
            push_str(&mut out, "]");
        },
        MessageId::MissingWecomSecret => {
            push_str(&mut out, "missing wecom secret — 运行 `hi gateway setup` 填写 secret");
        },
        MessageId::MissingWecomBotId => {
            push_str(&mut out, "wecom.bot_id 为空 — 在企微管理后台创建「智能机器人」并填写 bot_id");
        },
        MessageId::MissingFeishuAppId => {
            push_str(&mut out, "feishu.app_id 为空 — 运行 `hi gateway setup`");
        },
        MessageId::MissingFeishuAppSecret => {
            push_str(&mut out, "feishu.app_secret 为空 — 运行 `hi gateway setup`");
        },
        MessageId::FeishuAllowlistEmpty => {
            push_str(&mut out, "feishu allowlist 为空：无人可发消息，请在 hi.toml 配置 allow_from 或运行 `hi gateway setup`");
        },
        MessageId::WecomAllowlistEmpty => {
            push_str(&mut out, "wecom allowlist 为空：无人可发消息，请在 hi.toml 配置 allow_from 或运行 `hi gateway setup`");
        },
        MessageId::WecomDmPolicyOpenWarn => {
            push_str(&mut out, "wecom dm_policy=open：所有用户可触发 Agent；生产环境请改用 allowlist");
        },
        MessageId::FeishuDmPolicyOpenWarn => {
            push_str(&mut out, "feishu dm_policy=open：所有用户可触发 Agent；生产环境请改用 allowlist");
        },
        MessageId::DefaultWelcome => {
            push_str(&mut out, "你好，我是 hi，极致轻量化的个人 AI 助手，有什么可以帮您？");
        },
        MessageId::SchemaIncompatible => {
            push_arg(&mut out, args, 0);
        },
        MessageId::MemorySearchDisabled => {
            push_str(&mut out, "memory_search: 记忆未启用或未持久化");
        },
        MessageId::MemoryQueryEmpty => {
            push_str(&mut out, "memory_search: query 不能为空");
        },
        MessageId::ToolIterationLimit => {
            push_str(&mut out, "本轮工具调用已达上限（");
            push_arg(&mut out, args, 0);
            push_str(&mut out, " 轮），且无法生成总结；请缩小任务或调高 context.max_tool_iterations 后重试");
        },
        MessageId::MemoryRecorded => {
            push_str(&mut out, "已记录记忆 #");
            push_arg(&mut out, args, 0);
        },
        MessageId::MemoryDuplicate => {
            push_str(&mut out, "记忆已存在（重复已跳过）");
        },
        MessageId::EmptyChannelReply => {
            push_str(&mut out, "Agent 返回空回复");
        },
        MessageId::EmergencyTrimSummary => {
            push_str(&mut out, "紧急裁剪：截短 ");
            push_arg(&mut out, args, 0);
            push_str(&mut out, " 条消息");
        },
        MessageId::ExtractKnotsFailed => {
            push_str(&mut out, "结绳抽取失败：");
            push_arg(&mut out, args, 0);
        },
        MessageId::ApprovalPromptBash => {
            push_str(&mut out, "⚠️ 需确认，请回复「确认」执行或「取消」放弃:\nbash: ");
            push_arg(&mut out, args, 0);
            push_str(&mut out, "\n→ 加入 ");
            push_arg(&mut out, args, 1);
        },
        MessageId::ApprovalPromptFile => {
            push_str(&mut out, "⚠️ 需确认，请回复「确认」执行或「取消」放弃:\n");
            push_arg(&mut out, args, 0);
            push_str(&mut out, ": ");
            push_arg(&mut out, args, 1);
            push_str(&mut out, "\n→ 加入 ");
            push_arg(&mut out, args, 2);
        },
        MessageId::ApprovalPromptGeneric => {
            push_str(&mut out, "⚠️ 需确认，请回复「确认」执行或「取消」放弃:\n");
            push_arg(&mut out, args, 0);
            push_str(&mut out, ": ");
            push_arg(&mut out, args, 1);
            push_str(&mut out, "\n→ 加入 ");
            push_arg(&mut out, args, 2);
        },
        MessageId::GatewayThinking => {
            push_str(&mut out, "思考中…");
        },
        MessageId::GatewayBusy => {
            push_str(&mut out, "上一条还在处理，请稍候…");
        },
        MessageId::GatewayTurnAck => {
            push_str(&mut out, "收到，思考中…");
        },
        MessageId::GatewayProcessFailed => {
            push_str(&mut out, "处理失败：");
            push_arg(&mut out, args, 0);
            push_str(&mut out, "\n请稍后重试。");
        },
        MessageId::GatewayUnsupportedMessage => {
            push_str(&mut out, "暂不支持 ");
            push_arg(&mut out, args, 0);
            push_str(&mut out, " 消息，请发送文本。");
        },
        MessageId::GatewayCheckOkWecom => {
            push_str(&mut out, "企业微信网关预检通过");
        },
        MessageId::GatewayCheckOkFeishu => {
            push_str(&mut out, "飞书网关预检通过");
        },
        MessageId::GatewayCheckOkWeixin => {
            push_str(&mut out, "个人微信 iLink 网关预检通过");
        },
        MessageId::GatewayCheckOkGeneric => {
            push_str(&mut out, "网关预检通过");
        },
        MessageId::GatewayStarted => {
            push_str(&mut out, "gateway 已启动 (pid ");
            push_arg(&mut out, args, 0);
            push_str(&mut out, ")");
        },
        MessageId::GatewayLogsDir => {
            push_str(&mut out, "日志目录: ");
            push_arg(&mut out, args, 0);
        },
        MessageId::GatewayStopHint => {
            push_str(&mut out, "停止: hi gateway stop");
        },
        MessageId::GatewayNotRunning => {
            push_str(&mut out, "gateway 未运行");
        },
        MessageId::GatewayStopped => {
            push_str(&mut out, "gateway 已停止 (pid ");
            push_arg(&mut out, args, 0);
            push_str(&mut out, ")");
        },
        MessageId::GatewayForceStopped => {
            push_str(&mut out, "gateway 已强制停止 (pid ");
            push_arg(&mut out, args, 0);
            push_str(&mut out, ")");
        },
        MessageId::GatewayPidFile => {
            push_str(&mut out, "pid 文件: ");
            push_arg(&mut out, args, 0);
        },
        MessageId::GatewayWorkspace => {
            push_str(&mut out, "workspace: ");
            push_arg(&mut out, args, 0);
        },
        MessageId::GatewayChannels => {
            push_str(&mut out, "渠道: ");
            push_arg(&mut out, args, 0);
        },
        MessageId::GatewayChannelsNone => {
            push_str(&mut out, "渠道: （未配置 — 运行 hi gateway setup）");
        },
        MessageId::GatewayStatusRunning => {
            push_str(&mut out, "状态: 运行中 (pid ");
            push_arg(&mut out, args, 0);
            push_str(&mut out, ")");
        },
        MessageId::GatewayStatusStopped => {
            push_str(&mut out, "状态: 未运行");
        },
        MessageId::GatewayRecentLog => {
            push_str(&mut out, "最近日志: ");
            push_arg(&mut out, args, 0);
        },
        MessageId::GatewayReloadSent => {
            push_str(&mut out, "已通知 gateway 重新加载 hi.toml（[ai]、[tools.approvals]）(pid ");
            push_arg(&mut out, args, 0);
            push_str(&mut out, ")");
        },
        MessageId::GatewayStartFailed => {
            push_str(&mut out, "启动 gateway 失败: ");
            push_arg(&mut out, args, 0);
        },
        MessageId::GatewayPidParseFailed => {
            push_str(&mut out, "无法解析 gateway pid: ");
            push_arg(&mut out, args, 0);
        },
        MessageId::GatewayStopSignalFailed => {
            push_str(&mut out, "发送停止信号失败 (pid ");
            push_arg(&mut out, args, 0);
            push_str(&mut out, ")");
        },
        MessageId::GatewayStopFailed => {
            push_str(&mut out, "停止 gateway 失败 (pid ");
            push_arg(&mut out, args, 0);
            push_str(&mut out, ")");
        },
        MessageId::GatewayReloadUnixOnly => {
            push_str(&mut out, "gateway reload 当前仅支持 Unix，请使用 `hi gateway restart`");
        },
        MessageId::GatewayReloadSignalFailed => {
            push_str(&mut out, "发送 reload 信号失败 (pid ");
            push_arg(&mut out, args, 0);
            push_str(&mut out, ")");
        },
        MessageId::GatewayRecentLogLine => {
            push_str(&mut out, "最近日志: ");
            push_arg(&mut out, args, 0);
        },
        MessageId::ChatBanner => {
            push_str(&mut out, "hi chat — Enter 发送 (/quit /reset /compact) | session=");
            push_arg(&mut out, args, 0);
            push_str(&mut out, " | model=");
            push_arg(&mut out, args, 1);
            push_str(&mut out, " | cwd=");
            push_arg(&mut out, args, 2);
        },
        MessageId::ContextReset => {
            push_str(&mut out, "上下文已清空（完整 transcript 仍保留在数据库，可用 hi session show 查看）");
        },
        MessageId::ModelSlashTuiOnly => {
            push_str(&mut out, "/model 仅 TUI 可用，请使用 hi 或 hi tui");
        },
        MessageId::UnknownChatArg => {
            push_str(&mut out, "未知参数 `");
            push_arg(&mut out, args, 0);
            push_str(&mut out, "`。单轮：`hi chat 词1 词2 …`；多轮：`hi chat`");
        },
        MessageId::SessionListHeader => {
            push_arg(&mut out, args, 0);
            push_str(&mut out, " 个会话");
        },
        MessageId::SessionListRow => {
            push_padded(&mut out, args, 0, 24, true);
            push_str(&mut out, " ");
            push_padded(&mut out, args, 1, 8, false);
            push_str(&mut out, " ");
            push_padded(&mut out, args, 2, 8, false);
            push_str(&mut out, "  ");
            push_arg(&mut out, args, 3);
        },
        MessageId::SessionEmpty => {
            push_str(&mut out, "（无会话）");
        },
        MessageId::SessionNotFound => {
            push_str(&mut out, "（空会话或无此 session: ");
            push_arg(&mut out, args, 0);
            push_str(&mut out, "）");
        },
        MessageId::SessionExported => {
            push_str(&mut out, "已导出 ");
            push_arg(&mut out, args, 0);
            push_str(&mut out, " 条消息 → ");
            push_arg(&mut out, args, 1);
        },
        MessageId::SessionDeleted => {
            push_str(&mut out, "已删除 session ");
            push_arg(&mut out, args, 0);
            push_str(&mut out, " 及其全部 messages");
        },
        MessageId::SessionPurgeNeedConfirm => {
            push_str(&mut out, "拒绝执行：须加 --confirm 才会永久删除 session ");
            push_arg(&mut out, args, 0);
        },
        MessageId::CompressionListHeader => {
            push_str(&mut out, "压缩记录");
        },
        MessageId::CompressionRow => {
            push_str(&mut out, "#");
            push_arg(&mut out, args, 0);
            push_str(&mut out, "  msgs ");
            push_arg(&mut out, args, 1);
            push_str(&mut out, "..");
            push_arg(&mut out, args, 2);
            push_str(&mut out, "  (");
            push_arg(&mut out, args, 3);
            push_str(&mut out, " rows)  ");
            push_arg(&mut out, args, 4);
        },
        MessageId::CompressionDetailHeader => {
            push_str(&mut out, "压缩 #");
            push_arg(&mut out, args, 0);
        },
        MessageId::CompressionDetailSummary => {
            push_arg(&mut out, args, 0);
        },
        MessageId::MemoryListEmpty => {
            push_str(&mut out, "（无结绳记忆，owner=");
            push_arg(&mut out, args, 0);
            push_str(&mut out, "）");
        },
        MessageId::MemoryAdded => {
            push_str(&mut out, "已打结 #");
            push_arg(&mut out, args, 0);
        },
        MessageId::MemoryForgotten => {
            push_str(&mut out, "已遗忘结 #");
            push_arg(&mut out, args, 0);
        },
        MessageId::MemoryReinforced => {
            push_str(&mut out, "已强化结 #");
            push_arg(&mut out, args, 0);
        },
        MessageId::MemoryExtractNone => {
            push_str(&mut out, "会话 ");
            push_arg(&mut out, args, 0);
            push_str(&mut out, " 无 in_context 消息可抽取");
        },
        MessageId::MemoryExtractDone => {
            push_str(&mut out, "抽取完成：新增 ");
            push_arg(&mut out, args, 0);
            push_str(&mut out, "，跳过 ");
            push_arg(&mut out, args, 1);
            push_str(&mut out, "，取代 ");
            push_arg(&mut out, args, 2);
        },
        MessageId::MemoryListRow => {
            push_padded(&mut out, args, 0, 6, false);
            push_str(&mut out, "  ");
            push_padded(&mut out, args, 1, 12, true);
            push_str(&mut out, " ");
            push_padded(&mut out, args, 2, 10, true);
            push_str(&mut out, " ");
            push_padded(&mut out, args, 3, 5, false);
            push_str(&mut out, "  ");
            push_arg(&mut out, args, 4);
        },
        MessageId::MemoryDisabledInConfig => {
            push_str(&mut out, "[memory].enabled = false，请在 hi.toml 中启用记忆");
        },
        MessageId::MemoryUnknownKind => {
            push_str(&mut out, "未知 kind: ");
            push_arg(&mut out, args, 0);
            push_str(&mut out, "（preference|fact|decision|task|procedure）");
        },
        MessageId::LlmHttpError => {
            if arg_is_empty(args, 1) {
                push_str(&mut out, "大模型 API 请求失败（HTTP ");
                push_arg(&mut out, args, 0);
                push_str(&mut out, "）。");
                push_arg(&mut out, args, 2);
            } else {
                push_str(&mut out, "大模型 API 请求失败（HTTP ");
                push_arg(&mut out, args, 0);
                push_str(&mut out, "）：");
                push_arg(&mut out, args, 1);
                push_str(&mut out, "\n");
                push_arg(&mut out, args, 2);
            }
        },
        MessageId::LlmTransportError => {
            push_str(&mut out, "无法连接大模型服务，请检查网络、代理，以及 hi.toml 中的 base_url。\n详情：");
            push_arg(&mut out, args, 0);
        },
        MessageId::LlmReadBodyError => {
            push_str(&mut out, "读取大模型响应失败，连接可能已中断。\n详情：");
            push_arg(&mut out, args, 0);
        },
        MessageId::LlmParseError => {
            push_str(&mut out, "大模型返回了无法解析的响应，可能是服务异常或 model 名称不正确。\n详情：");
            push_arg(&mut out, args, 0);
        },
        MessageId::LlmStreamError => {
            push_str(&mut out, "读取大模型流式响应时出错，连接可能已中断。\n详情：");
            push_arg(&mut out, args, 0);
        },
        MessageId::AnthropicNeedsApiKey => {
            push_str(&mut out, "Anthropic 需要 API Key，请运行 hi setup 配置。");
        },
        MessageId::StdinApprovalHeader => {
            push_str(&mut out, "⚠️  需要确认:");
        },
        MessageId::StdinApprovalPrompt => {
            push_str(&mut out, "Approve? [y/N]: ");
        },
        MessageId::WizardWritten => {
            push_str(&mut out, "已写入 ");
            push_arg(&mut out, args, 0);
        },
        MessageId::WizardFinishSteps => {
            push_arg(&mut out, args, 0);
        },
        MessageId::WizardConfigPathLine => {
            push_str(&mut out, "配置文件: ");
            push_arg(&mut out, args, 0);
        },
        MessageId::WizardSelectNumberPrompt => {
            push_str(&mut out, "请选择 [");
            push_arg(&mut out, args, 0);
            push_str(&mut out, "]");
        },
        MessageId::WizardWriteFailed => {
            push_str(&mut out, "写入失败");
        },
        MessageId::WizardFinishTitle => {
            push_str(&mut out, "完成");
        },
        MessageId::WizardCancelled => {
            push_str(&mut out, "已取消配置向导");
        },
        MessageId::SetupTitle => {
            push_str(&mut out, "hi · 配置向导");
        },
        MessageId::SetupUpdateTitle => {
            push_str(&mut out, "hi · 更新配置");
        },
        MessageId::SetupNotePath => {
            push_str(&mut out, "写入 ");
            push_arg(&mut out, args, 0);
            push_str(&mut out, "。\nLLM 必填；消息渠道可选，稍后也可 hi gateway setup 补配。\n密钥仅存本机，勿提交 Git。\n回车保留当前值；带「返回」的菜单可选上一项。");
        },
        MessageId::SetupNoteRepeat => {
            push_str(&mut out, "回车保留当前值；带「返回」的菜单可选上一项。");
        },
        MessageId::SetupSummaryProvider => {
            push_str(&mut out, "Provider：");
            push_arg(&mut out, args, 0);
        },
        MessageId::SetupSummaryModel => {
            push_str(&mut out, "模型：");
            push_arg(&mut out, args, 0);
        },
        MessageId::SetupSummaryWorkspace => {
            push_str(&mut out, "Gateway 工作目录：");
            push_arg(&mut out, args, 0);
        },
        MessageId::SetupSummaryApiKeySet => {
            push_str(&mut out, "API Key：已设置");
        },
        MessageId::SetupSummaryApiKeyMissing => {
            push_str(&mut out, "API Key：未设置");
        },
        MessageId::SetupWorkspaceNote => {
            push_str(&mut out, "此项为 hi gateway 远程消息渠道使用的工作目录。\nhi / hi tui / hi chat 使用命令行当前工作目录，与此项无关。");
        },
        MessageId::SetupWorkspacePrompt => {
            push_str(&mut out, "Gateway 工作目录（workspace）");
        },
        MessageId::SetupProviderPrompt => {
            push_str(&mut out, "请选择大模型 Provider");
        },
        MessageId::SetupOllamaUrlPrompt => {
            push_str(&mut out, "Ollama 服务地址（不含 /v1 后缀）");
        },
        MessageId::SetupBaseUrlPrompt => {
            push_str(&mut out, "API 基础地址 base_url（留空则使用 Provider 默认值）");
        },
        MessageId::SetupDeepseekKeyNote => {
            push_str(&mut out, "DeepSeek API Key\n在 https://platform.deepseek.com/api_keys 申请 API Key。\n官方文档：https://api-docs.deepseek.com/zh-cn/");
        },
        MessageId::SetupModelPrompt => {
            push_str(&mut out, "请选择模型");
        },
        MessageId::SetupModelCustom => {
            push_str(&mut out, "自定义模型名称");
        },
        MessageId::SetupModelFetching => {
            push_str(&mut out, "Fetching available models…");
        },
        MessageId::SetupModelFetchDone => {
            push_str(&mut out, "Fetched ");
            push_arg(&mut out, args, 0);
            push_str(&mut out, " models");
        },
        MessageId::SetupModelFetchFailedTitle => {
            push_str(&mut out, "Failed to fetch model list");
        },
        MessageId::SetupModelFetchFailedNote => {
            push_str(&mut out, "Falling back to built-in list / manual input.\nDetail: ");
            push_arg(&mut out, args, 0);
        },
        MessageId::SetupApiKeyPrompt => {
            push_str(&mut out, "API Key");
        },
        MessageId::SetupSaving => {
            push_str(&mut out, "正在保存配置…");
        },
        MessageId::SetupFinishNoGateway => {
            push_str(&mut out, "配置已保存。\n\n  hi chat 你好           试聊验收\n  hi                     终端 UI\n  hi gateway setup       以后补配消息渠道\n  hi config              查看配置（密钥脱敏）\n\n工具确认规则已写入 hi.toml，运行时确认会自动追加。");
        },
        MessageId::SetupFinishWithGateway => {
            push_str(&mut out, "配置已保存。\n\n  hi chat 你好           本地试聊\n  hi gateway --check     渠道连接预检\n  hi gateway             启动网关\n  hi gateway setup       新增或修改渠道\n  hi config              查看配置（密钥脱敏）\n\nGateway 工具在 workspace 目录执行；本地 chat/tui 在当前目录。\n工具确认规则已写入 hi.toml，运行时确认会自动追加。");
        },
        MessageId::NoteTitleSetup => {
            push_str(&mut out, "配置向导");
        },
        MessageId::NoteTitleLlm => {
            push_str(&mut out, "大模型");
        },
        MessageId::NoteTitleDeepseekApiKey => {
            push_str(&mut out, "DeepSeek API Key");
        },
        MessageId::SetupCurrentSummaryTitle => {
            push_str(&mut out, "当前配置摘要");
        },
        MessageId::SetupSummaryChannels => {
            push_str(&mut out, "消息渠道：");
            push_arg(&mut out, args, 0);
        },
        MessageId::SetupSummaryMaskedKey => {
            push_str(&mut out, "API Key：已设置（****）");
        },
        MessageId::SetupLlmSummaryBody => {
            push_str(&mut out, "Provider：");
            push_arg(&mut out, args, 0);
            push_str(&mut out, "\n模型：");
            push_arg(&mut out, args, 1);
            push_str(&mut out, "\n");
            push_arg(&mut out, args, 2);
            push_str(&mut out, "\n\n继续配置消息渠道 →");
        },
        MessageId::SetupCodexNotLoggedInTitle => {
            push_str(&mut out, "OpenAI Codex 未登录");
        },
        MessageId::SetupCodexSkippedTitle => {
            push_str(&mut out, "已跳过 Codex");
        },
        MessageId::SetupCodexSkippedNote => {
            push_str(&mut out, "本次未切换到 Codex，请重选 Provider。\n完成 `codex login` 后重新选择 OpenAI Codex 即可。");
        },
        MessageId::SetupCodexModelPrompt => {
            push_str(&mut out, "选择 Codex 模型");
        },
        MessageId::SetupCodexLoginHint => {
            push_str(&mut out, "未检测到本地 Codex 登录凭证：\n  ");
            push_arg(&mut out, args, 0);
            push_str(&mut out, "\n\n请先用 OpenAI Codex CLI 登录（ChatGPT 账号）：\n  codex login\n\n登录完成后重新运行 `hi setup`，选择 OpenAI Codex 即可进入模型选择。");
        },
        MessageId::ProviderDeepseekHint => {
            push_str(&mut out, "官方 API（platform.deepseek.com）");
        },
        MessageId::ProviderOpenaiCompatLabel => {
            push_str(&mut out, "OpenAI 兼容接口");
        },
        MessageId::ProviderOpenaiCompatHint => {
            push_str(&mut out, "OpenAI、Moonshot、自部署 OpenAI 兼容服务");
        },
        MessageId::ProviderCodexHint => {
            push_str(&mut out, "复用本地 Codex CLI 登录（ChatGPT），无需 API Key");
        },
        MessageId::ProviderOllamaLabel => {
            push_str(&mut out, "Ollama 本地推理");
        },
        MessageId::ProviderOllamaHint => {
            push_str(&mut out, "本机部署，无需 API Key");
        },
        MessageId::ModelHintFlagship => {
            push_str(&mut out, "旗舰");
        },
        MessageId::ModelHintReasonerDeprecated => {
            push_str(&mut out, "思考模式，2026/07 弃用");
        },
        MessageId::ModelHintDeprecatedJuly2026 => {
            push_str(&mut out, "旧版，2026/07 弃用");
        },
        MessageId::ModelHintSonnet4Recommended => {
            push_str(&mut out, "Sonnet 4（推荐）");
        },
        MessageId::ModelBackToProviderLabel => {
            push_str(&mut out, "← 返回重新选择 Provider");
        },
        MessageId::ModelBackToProviderHint => {
            push_str(&mut out, "回到厂商列表");
        },
        MessageId::ModelCustomLabel => {
            push_str(&mut out, "自定义模型名…");
        },
        MessageId::ModelCustomHint => {
            push_str(&mut out, "手动输入 model 名称");
        },
        MessageId::SetupModelNamePrompt => {
            push_str(&mut out, "模型名称（model）");
        },
        MessageId::GatewaySetupTitle => {
            push_str(&mut out, "hi · 消息渠道配置");
        },
        MessageId::GatewaySetupUpdateTitle => {
            push_str(&mut out, "hi · 更新消息渠道配置");
        },
        MessageId::GatewaySetupNote => {
            push_str(&mut out, "本向导将写入 ");
            push_arg(&mut out, args, 0);
            push_str(&mut out, " 中的消息渠道相关配置。\n\n大模型请用 `hi setup`；此处用于新增或更新消息渠道。\n带默认值的项直接按回车即可保留当前值。");
        },
        MessageId::GatewaySetupChannelPrompt => {
            push_str(&mut out, "请选择消息渠道");
        },
        MessageId::GatewaySetupWecomCredsNote => {
            push_str(&mut out, "请在企业微信管理后台「智能机器人 → 长连接模式」中获取 Bot ID 与 Secret。\nSecret 仅展示一次，请妥善保管，勿提交至版本库。");
        },
        MessageId::GatewaySetupBotIdPrompt => {
            push_str(&mut out, "Bot ID（wecom.bot_id）");
        },
        MessageId::GatewaySetupSecretPrompt => {
            push_str(&mut out, "Bot Secret（wecom.secret）");
        },
        MessageId::GatewaySetupAllowlistPrompt => {
            push_str(&mut out, "是否启用私信白名单？");
        },
        MessageId::GatewaySetupAllowlistUsersPrompt => {
            push_str(&mut out, "允许发消息的用户 ID（");
            push_arg(&mut out, args, 0);
            push_str(&mut out, "，逗号分隔，至少一个）");
        },
        MessageId::GatewaySetupOpenModeNote => {
            push_str(&mut out, "开放模式：所有用户均可触发 Agent。\n仅建议在开发联调时使用；生产环境请改回 allowlist。");
        },
        MessageId::GatewaySetupWelcomePrompt => {
            push_str(&mut out, "欢迎语（留空则使用系统默认）");
        },
        MessageId::GatewaySetupSaving => {
            push_str(&mut out, "正在保存配置…");
        },
        MessageId::GatewaySetupFinish => {
            push_str(&mut out, "消息渠道配置已保存。\n\n后续步骤：\n  hi gateway --check    连接预检\n  hi gateway            启动网关\n  hi config             查看配置（密钥脱敏）");
        },
        MessageId::GatewaySetupNeedBaseConfig => {
            push_str(&mut out, "请先完成基础配置：\n  hi setup\n\n配置文件：");
            push_arg(&mut out, args, 0);
        },
        MessageId::GatewaySetupNoChannels => {
            push_str(&mut out, "当前版本未提供可用的消息渠道");
        },
        MessageId::GatewaySetupFeishuCredsNote => {
            push_str(&mut out, "请在飞书开放平台（https://open.feishu.cn/app）创建企业自建应用，\n开启机器人能力，订阅 im.message.receive_v1，事件订阅方式选「使用长连接接收事件」。\n权限：单聊消息、群聊 @ 消息（或群聊全部消息）、发送消息。\n将机器人加入目标群聊后即可在群内对话；App Secret 勿提交至版本库。");
        },
        MessageId::GatewaySetupWeixinCredsNote => {
            push_str(&mut out, "个人微信 iLink（实验性）：\n1. 手机微信升级到 8.0.70+（iOS）/ 8.0.69+（Android）\n2. 我 → 设置 → 插件 → 启用 iLink 插件\n3. 本向导将生成二维码，用微信扫码授权\n4. 建议用小号绑定；bot_token 勿提交至版本库\n详见 docs/guides/weixin-ilink-integration.md");
        },
        MessageId::GatewaySetupGenericCredsNote => {
            push_str(&mut out, "请按平台文档准备连接凭证。");
        },
        MessageId::GatewaySetupFeishuAppIdPrompt => {
            push_str(&mut out, "App ID（feishu.app_id）");
        },
        MessageId::GatewaySetupFeishuSecretPrompt => {
            push_str(&mut out, "App Secret（feishu.app_secret）");
        },
        MessageId::GatewaySetupFeishuDomainPrompt => {
            push_str(&mut out, "API 域名（留空默认 open.feishu.cn；国际版 Lark 填 open.larksuite.com）");
        },
        MessageId::GatewaySetupFeishuMentionPrompt => {
            push_str(&mut out, "群聊是否仅响应 @机器人（mention_enabled，默认 true）");
        },
        MessageId::GatewaySetupFeishuMentionOnTitle => {
            push_str(&mut out, "@mention 说明");
        },
        MessageId::GatewaySetupFeishuMentionOnNote => {
            push_str(&mut out, "启用后，群聊中需 @机器人 才会回复（权限：im:message.group_at_msg:readonly）。\n可随时在 hi.toml 将 mention_enabled 改为 false 以响应群内所有消息。");
        },
        MessageId::GatewaySetupFeishuMentionOffTitle => {
            push_str(&mut out, "群聊自由对话");
        },
        MessageId::GatewaySetupFeishuMentionOffNote => {
            push_str(&mut out, "关闭 @ 限制后，机器人在群内可响应所有文本消息。\n请在飞书开放平台开通 im:message.group_msg 权限并重新发版。");
        },
        MessageId::GatewaySetupWeixinRiskTitle => {
            push_str(&mut out, "风险提示");
        },
        MessageId::GatewaySetupWeixinRiskNote => {
            push_str(&mut out, "个人微信 iLink 处于灰度测试，腾讯可随时调整或终止服务。\n建议用小号绑定；请阅读微信 iLink 功能使用条款。");
        },
        MessageId::GatewaySetupWeixinReloginPrompt => {
            push_str(&mut out, "已存在 bot_token，是否重新扫码登录？");
        },
        MessageId::GatewaySetupWeixinLoginSuccessTitle => {
            push_str(&mut out, "登录成功");
        },
        MessageId::GatewaySetupWeixinLoginSuccessNote => {
            push_str(&mut out, "已绑定微信用户：");
            push_arg(&mut out, args, 0);
            push_str(&mut out, "\n启动 `hi gateway` 后，在手机微信 iLink 插件中私聊即可。");
        },
        MessageId::GatewaySetupAllowlistMissingTitle => {
            push_str(&mut out, "需要用户 ID");
        },
        MessageId::GatewaySetupAllowlistMissingNote => {
            push_str(&mut out, "allowlist 模式下至少填写一个");
            push_arg(&mut out, args, 0);
            push_str(&mut out, "。\n飞书 open_id 可在事件日志或 API 调试中查看；企微 userid 见管理后台。");
        },
        MessageId::GatewaySetupCredentialNoteTitle => {
            push_str(&mut out, "凭证说明");
        },
        MessageId::GatewaySetupExistingChannelsTitle => {
            push_str(&mut out, "已配置的消息渠道");
        },
        MessageId::GatewaySetupExistingChannelsNote => {
            push_str(&mut out, "当前：");
            push_arg(&mut out, args, 0);
            push_str(&mut out, "\n选择「现在配置」将更新 default 实例；新增其它实例请用 `hi gateway setup`。");
        },
        MessageId::GatewaySetupGatePrompt => {
            push_str(&mut out, "是否配置消息渠道？");
        },
        MessageId::GatewaySetupGateConfigureLabel => {
            push_str(&mut out, "现在配置");
        },
        MessageId::GatewaySetupGateConfigureHint => {
            push_str(&mut out, "企业微信、飞书或个人微信");
        },
        MessageId::GatewaySetupGateSkipLabel => {
            push_str(&mut out, "暂不配置，仅本地使用 hi chat / tui");
        },
        MessageId::GatewaySetupGateSkipHint => {
            push_str(&mut out, "稍后可运行 hi gateway setup");
        },
        MessageId::ChannelSummaryWecom => {
            push_str(&mut out, "企业微信");
        },
        MessageId::ChannelSummaryFeishu => {
            push_str(&mut out, "飞书");
        },
        MessageId::ChannelSummaryWeixin => {
            push_str(&mut out, "个人微信");
        },
        MessageId::ChannelSummaryNone => {
            push_str(&mut out, "未配置");
        },
        MessageId::QrGenerateFailed => {
            push_str(&mut out, "生成终端二维码失败: ");
            push_arg(&mut out, args, 0);
        },
        MessageId::WizardBack => {
            push_str(&mut out, "← 返回");
        },
        MessageId::WizardSelectEmpty => {
            push_arg(&mut out, args, 0);
            push_str(&mut out, ": 没有可选项");
        },
        MessageId::WizardPasswordKeepSuffix => {
            push_str(&mut out, "（留空表示保持不变）");
        },
        MessageId::NoteTitleWorkspace => {
            push_str(&mut out, "工作目录");
        },
        MessageId::NoteTitleGatewaySetup => {
            push_str(&mut out, "消息渠道配置");
        },
        MessageId::NoteTitleDmPolicy => {
            push_str(&mut out, "私信策略");
        },
        MessageId::NoteTitleQr => {
            push_str(&mut out, "二维码");
        },
        MessageId::WeixinQrPrompt => {
            push_str(&mut out, "请用微信扫描下方二维码：");
        },
        MessageId::WeixinQrWaitingNoteTitle => {
            push_str(&mut out, "二维码");
        },
        MessageId::WeixinQrWaiting => {
            push_str(&mut out, "等待扫码（最长 3 分钟）…");
        },
        MessageId::WeixinQrScanned => {
            push_str(&mut out, "已扫码，请在手机上确认…");
        },
        MessageId::WeixinQrExpired => {
            push_str(&mut out, "二维码已过期");
        },
        MessageId::ChannelWecomLabel => {
            push_str(&mut out, "企业微信智能机器人");
        },
        MessageId::ChannelWecomHint => {
            push_str(&mut out, "WebSocket 长连接 · 已接入");
        },
        MessageId::ChannelFeishuLabel => {
            push_str(&mut out, "飞书机器人");
        },
        MessageId::ChannelFeishuHint => {
            push_str(&mut out, "长连接 WebSocket · 已接入");
        },
        MessageId::ChannelWeixinLabel => {
            push_str(&mut out, "个人微信（iLink）");
        },
        MessageId::ChannelWeixinHint => {
            push_str(&mut out, "iLink 长轮询 · 实验性 · 需手机插件灰度");
        },
        MessageId::ModelHintRecommended => {
            push_str(&mut out, "推荐");
        },
        MessageId::ModelHintLegacy => {
            push_str(&mut out, "旧版");
        },
        MessageId::TuiBusyWaitingModel => {
            push_str(&mut out, "等待模型…");
        },
        MessageId::TuiBusyGenerating => {
            push_str(&mut out, "生成回复");
        },
        MessageId::TuiBusyThinking => {
            push_str(&mut out, "思考");
        },
        MessageId::TuiBusyMemoryExtract => {
            push_str(&mut out, "结绳记事");
        },
        MessageId::TuiBusyCompress => {
            push_str(&mut out, "压缩上下文");
        },
        MessageId::TuiInterrupted => {
            push_str(&mut out, "已中断");
        },
        MessageId::TuiContextReset => {
            push_str(&mut out, "上下文已清空（transcript 仍保留在数据库）");
        },
        MessageId::TuiModelActivated => {
            push_str(&mut out, "已切换模型：");
            push_arg(&mut out, args, 0);
            push_str(&mut out, " · ");
            push_arg(&mut out, args, 1);
            push_str(&mut out, "（已写入 hi.toml）");
        },
        MessageId::TuiModelUnknown => {
            push_str(&mut out, "未匹配到模型实例 — 检查 hi.toml [ai.providers]（");
            push_arg(&mut out, args, 0);
            push_str(&mut out, "）");
        },
        MessageId::TuiStatusDefault => {
            push_str(&mut out, "←→ 移动光标 · Enter 发送 · Shift+Enter 换行 · Ctrl+C 退出 · model ");
            push_arg(&mut out, args, 0);
        },
        MessageId::TuiStatusSlashMenu => {
            push_str(&mut out, "↑↓ 选择 · Tab/Enter 填入输入框");
        },
        MessageId::TuiStatusModelMenu => {
            push_str(&mut out, "↑↓ 选择模型 · Enter 激活 · Esc 取消");
        },
        MessageId::TuiSlashModel => {
            push_str(&mut out, "/model");
        },
        MessageId::TuiSlashModelDesc => {
            push_str(&mut out, "选择并切换已配置的模型实例");
        },
        MessageId::TuiSlashReset => {
            push_str(&mut out, "/reset");
        },
        MessageId::TuiSlashResetDesc => {
            push_str(&mut out, "清空 Agent 可见上下文（别名 /clear）");
        },
        MessageId::TuiSlashCompact => {
            push_str(&mut out, "/compact");
        },
        MessageId::TuiSlashCompactDesc => {
            push_str(&mut out, "强制裁剪并 LLM 摘要上下文");
        },
        MessageId::TuiSlashVerbose => {
            push_str(&mut out, "/verbose");
        },
        MessageId::TuiSlashVerboseDesc => {
            push_str(&mut out, "Toggle verbose: stream full think & tool output");
        },
        MessageId::TuiVerboseOn => {
            push_str(&mut out, "Verbose: on · think & tool output stream in full");
        },
        MessageId::TuiVerboseOff => {
            push_str(&mut out, "Verbose: off · summary lines only");
        },
        MessageId::TuiExitResumeHint => {
            push_str(&mut out, "Session saved · session=");
            push_arg(&mut out, args, 0);
            push_str(&mut out, " · resume: hi -s ");
            push_arg(&mut out, args, 0);
        },
        MessageId::TuiModelCurrentSuffix => {
            push_str(&mut out, " (当前)");
        },
        MessageId::TuiApprovalTitle => {
            push_str(&mut out, "审批");
        },
        MessageId::TuiApprovalApprove => {
            push_str(&mut out, "y 批准");
        },
        MessageId::TuiApprovalReject => {
            push_str(&mut out, "n/Esc 拒绝");
        },
        MessageId::TuiQueueWaiting => {
            push_str(&mut out, "下一条排队等待: ");
            push_arg(&mut out, args, 0);
        },
        MessageId::ToolBudgetReminder => {
            push_str(&mut out, "[预算提醒: ");
            push_arg(&mut out, args, 0);
            push_str(&mut out, "/");
            push_arg(&mut out, args, 1);
            push_str(&mut out, "，剩余约 ");
            push_arg(&mut out, args, 2);
            push_str(&mut out, " 轮，请开始收束并准备回复。]");
        },
        MessageId::ToolBudgetForceSummary => {
            push_str(&mut out, "（系统：本轮工具调用次数已达上限。请根据以上对话与工具结果，不再调用任何工具，向用户总结目前已完成的工作、关键发现和尚未完成的部分。用简体中文回复。）");
        },
        MessageId::ToolBudgetSummaryPrefix => {
            push_str(&mut out, "（本轮工具调用已达上限（");
            push_arg(&mut out, args, 0);
            push_str(&mut out, "/");
            push_arg(&mut out, args, 0);
            push_str(&mut out, "），以下为阶段性总结）");
        },
    }
    to_string(&out)
}

} // verus!
