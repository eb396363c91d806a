//! Identifiers of user-visible messages.
use vstd::prelude::*;

verus! {

/// User-visible message identifiers (locale-neutral).
#[derive(Debug, Clone, Copy, PartialEq, Eq, Hash, Structural)]
pub enum MessageId {
    MissingApiKey,
    UnknownAiProvider,
    UnknownModel,
    ParseHiConfig,
    SerializeHiConfig,
    ReadCurrentDir,
    CreateWorkspace,
    InvalidWorkspace,
    ConfigLock,
    ProviderLock,
    ApprovalPolicyLock,
    BuildAgent,
    ConfigNotSetup,
    HiTomlPath,
    ChannelsNotConfigured,
    UnknownChannelId,
    WecomAccountMissing,
    FeishuAccountMissing,
    WeixinAccountMissing,
    MissingWecomSecret,
    MissingWecomBotId,
    MissingFeishuAppId,
    MissingFeishuAppSecret,
    FeishuAllowlistEmpty,
    WecomAllowlistEmpty,
    WecomDmPolicyOpenWarn,
    FeishuDmPolicyOpenWarn,
    DefaultWelcome,
    SchemaIncompatible,
    MemorySearchDisabled,
    MemoryQueryEmpty,
    ToolIterationLimit,
    MemoryRecorded,
    MemoryDuplicate,
    EmptyChannelReply,
    EmergencyTrimSummary,
    ExtractKnotsFailed,
    ApprovalPromptBash,
    ApprovalPromptFile,
    ApprovalPromptGeneric,
    GatewayThinking,
    GatewayBusy,
    GatewayTurnAck,
    GatewayProcessFailed,
    GatewayUnsupportedMessage,
    GatewayCheckOkWecom,
    GatewayCheckOkFeishu,
    GatewayCheckOkWeixin,
    GatewayCheckOkGeneric,
    GatewayStarted,
    GatewayLogsDir,
    GatewayStopHint,
    GatewayNotRunning,
    GatewayStopped,
    GatewayForceStopped,
    GatewayPidFile,
    GatewayWorkspace,
    GatewayChannels,
    GatewayChannelsNone,
    GatewayStatusRunning,
    GatewayStatusStopped,
    GatewayRecentLog,
    GatewayReloadSent,
    GatewayStartFailed,
    GatewayPidParseFailed,
    GatewayStopSignalFailed,
    GatewayStopFailed,
    GatewayReloadUnixOnly,
    GatewayReloadSignalFailed,
    GatewayRecentLogLine,
    ChatBanner,
    ContextReset,
    ModelSlashTuiOnly,
    UnknownChatArg,
    SessionListHeader,
    SessionListRow,
    SessionEmpty,
    SessionNotFound,
    SessionExported,
    SessionDeleted,
    SessionPurgeNeedConfirm,
    CompressionListHeader,
    CompressionRow,
    CompressionDetailHeader,
    CompressionDetailSummary,
    MemoryListEmpty,
    MemoryAdded,
    MemoryForgotten,
    MemoryReinforced,
    MemoryExtractNone,
    MemoryExtractDone,
    MemoryListRow,
    MemoryDisabledInConfig,
    MemoryUnknownKind,
    LlmHttpError,
    LlmTransportError,
    LlmReadBodyError,
    LlmParseError,
    LlmStreamError,
    AnthropicNeedsApiKey,
    StdinApprovalHeader,
    StdinApprovalPrompt,
    WizardWritten,
    WizardFinishSteps,
    WizardConfigPathLine,
    WizardSelectNumberPrompt,
    WizardWriteFailed,
    WizardFinishTitle,
    WizardCancelled,
    SetupTitle,
    SetupUpdateTitle,
    SetupNotePath,
    SetupNoteRepeat,
    SetupSummaryProvider,
    SetupSummaryModel,
    SetupSummaryWorkspace,
    SetupSummaryApiKeySet,
    SetupSummaryApiKeyMissing,
    SetupWorkspaceNote,
    SetupWorkspacePrompt,
    SetupProviderPrompt,
    SetupOllamaUrlPrompt,
    SetupBaseUrlPrompt,
    SetupDeepseekKeyNote,
    SetupModelPrompt,
    SetupModelCustom,
    SetupModelFetching,
    SetupModelFetchDone,
    SetupModelFetchFailedTitle,
    SetupModelFetchFailedNote,
    SetupApiKeyPrompt,
    SetupSaving,
    SetupFinishNoGateway,
    SetupFinishWithGateway,
    NoteTitleSetup,
    NoteTitleLlm,
    NoteTitleDeepseekApiKey,
    SetupCurrentSummaryTitle,
    SetupSummaryChannels,
    SetupSummaryMaskedKey,
    SetupLlmSummaryBody,
    SetupCodexNotLoggedInTitle,
    SetupCodexSkippedTitle,
    SetupCodexSkippedNote,
    SetupCodexModelPrompt,
    SetupCodexLoginHint,
    ProviderDeepseekHint,
    ProviderOpenaiCompatLabel,
    ProviderOpenaiCompatHint,
    ProviderCodexHint,
    ProviderOllamaLabel,
    ProviderOllamaHint,
    ModelHintFlagship,
    ModelHintReasonerDeprecated,
    ModelHintDeprecatedJuly2026,
    ModelHintSonnet4Recommended,
    ModelBackToProviderLabel,
    ModelBackToProviderHint,
    ModelCustomLabel,
    ModelCustomHint,
    SetupModelNamePrompt,
    GatewaySetupTitle,
    GatewaySetupUpdateTitle,
    GatewaySetupNote,
    GatewaySetupChannelPrompt,
    GatewaySetupWecomCredsNote,
    GatewaySetupBotIdPrompt,
    GatewaySetupSecretPrompt,
    GatewaySetupAllowlistPrompt,
    GatewaySetupAllowlistUsersPrompt,
    GatewaySetupOpenModeNote,
    GatewaySetupWelcomePrompt,
    GatewaySetupSaving,
    GatewaySetupFinish,
    GatewaySetupNeedBaseConfig,
    GatewaySetupNoChannels,
    GatewaySetupFeishuCredsNote,
    GatewaySetupWeixinCredsNote,
    GatewaySetupGenericCredsNote,
    GatewaySetupFeishuAppIdPrompt,
    GatewaySetupFeishuSecretPrompt,
    GatewaySetupFeishuDomainPrompt,
    GatewaySetupFeishuMentionPrompt,
    GatewaySetupFeishuMentionOnTitle,
    GatewaySetupFeishuMentionOnNote,
    GatewaySetupFeishuMentionOffTitle,
    GatewaySetupFeishuMentionOffNote,
    GatewaySetupWeixinRiskTitle,
    GatewaySetupWeixinRiskNote,
    GatewaySetupWeixinReloginPrompt,
    GatewaySetupWeixinLoginSuccessTitle,
    GatewaySetupWeixinLoginSuccessNote,
    GatewaySetupAllowlistMissingTitle,
    GatewaySetupAllowlistMissingNote,
    GatewaySetupCredentialNoteTitle,
    GatewaySetupExistingChannelsTitle,
    GatewaySetupExistingChannelsNote,
    GatewaySetupGatePrompt,
    GatewaySetupGateConfigureLabel,
    GatewaySetupGateConfigureHint,
    GatewaySetupGateSkipLabel,
    GatewaySetupGateSkipHint,
    ChannelSummaryWecom,
    ChannelSummaryFeishu,
    ChannelSummaryWeixin,
    ChannelSummaryNone,
    QrGenerateFailed,
    WizardBack,
    WizardSelectEmpty,
    WizardPasswordKeepSuffix,
    NoteTitleWorkspace,
    NoteTitleGatewaySetup,
    NoteTitleDmPolicy,
    NoteTitleQr,
    WeixinQrPrompt,
    WeixinQrWaitingNoteTitle,
    WeixinQrWaiting,
    WeixinQrScanned,
    WeixinQrExpired,
    ChannelWecomLabel,
    ChannelWecomHint,
    ChannelFeishuLabel,
    ChannelFeishuHint,
    ChannelWeixinLabel,
    ChannelWeixinHint,
    ModelHintRecommended,
    ModelHintLegacy,
    TuiBusyWaitingModel,
    TuiBusyGenerating,
    TuiBusyThinking,
    TuiBusyMemoryExtract,
    TuiBusyCompress,
    TuiInterrupted,
    TuiContextReset,
    TuiModelActivated,
    TuiModelUnknown,
    TuiStatusDefault,
    TuiStatusSlashMenu,
    TuiStatusModelMenu,
    TuiSlashModel,
    TuiSlashModelDesc,
    TuiSlashReset,
    TuiSlashResetDesc,
    TuiSlashCompact,
    TuiSlashCompactDesc,
    TuiSlashVerbose,
    TuiSlashVerboseDesc,
    TuiVerboseOn,
    TuiVerboseOff,
    TuiExitResumeHint,
    TuiModelCurrentSuffix,
    TuiApprovalTitle,
    TuiApprovalApprove,
    TuiApprovalReject,
    TuiQueueWaiting,
    ToolBudgetReminder,
    ToolBudgetForceSummary,
    ToolBudgetSummaryPrefix,
}

} // verus!
