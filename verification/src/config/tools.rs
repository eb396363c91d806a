//! Tool settings under `[tools]`: the approval policy.
use vstd::prelude::*;

verus! {

/// Whether approvals are asked for at all.
#[derive(Debug, Clone, Copy, PartialEq, Eq, Structural)]
pub enum ApprovalMode {
    On,
    Off,
}

impl Default for ApprovalMode {
    fn default() -> (r: Self)
        ensures
            r == ApprovalMode::On,
    {
        ApprovalMode::On
    }
}

/// `[tools.approvals.workspace]`: reads, writes and bash inside the workspace
/// need no approval (hard blocks and deny lists still apply).
#[derive(Debug, Clone, PartialEq, Eq)]
pub struct WorkspaceApprovalConfig {
    pub trust: bool,
}

impl Default for WorkspaceApprovalConfig {
    fn default() -> (r: Self)
        ensures
            r.trust,
    {
        WorkspaceApprovalConfig { trust: true }
    }
}

/// `[tools.approvals.filesystem]`: path-prefix allow and deny lists.
#[derive(Debug, Clone, PartialEq, Eq)]
pub struct FilesystemApprovalConfig {
    pub allow_read: Vec<String>,
    pub allow_write: Vec<String>,
    pub deny_read: Vec<String>,
    pub deny_write: Vec<String>,
}

impl Default for FilesystemApprovalConfig {
    fn default() -> (r: Self)
        ensures
            r.allow_read@.len() == 0,
            r.allow_write@.len() == 0,
            r.deny_read@.len() == 0,
            r.deny_write@.len() == 0,
    {
        FilesystemApprovalConfig {
            allow_read: Vec::new(),
            allow_write: Vec::new(),
            deny_read: Vec::new(),
            deny_write: Vec::new(),
        }
    }
}

impl FilesystemApprovalConfig {
    pub fn is_empty(&self) -> (r: bool)
        ensures
            r == (self.allow_read@.len() == 0 && self.allow_write@.len() == 0
                && self.deny_read@.len() == 0 && self.deny_write@.len() == 0),
    {
        self.allow_read.len() == 0 && self.allow_write.len() == 0 && self.deny_read.len() == 0
            && self.deny_write.len() == 0
    }
}

/// `[tools.approvals.commands]`: grant keys of dangerous commands that need no approval.
#[derive(Debug, Clone, PartialEq, Eq)]
pub struct CommandsApprovalConfig {
    pub allow: Vec<String>,
}

impl Default for CommandsApprovalConfig {
    fn default() -> (r: Self)
        ensures
            r.allow@.len() == 0,
    {
        CommandsApprovalConfig { allow: Vec::new() }
    }
}

/// Unified approval policy under `[tools.approvals]`.
#[derive(Debug, Clone, PartialEq, Eq)]
pub struct ApprovalsConfig {
    pub mode: ApprovalMode,
    pub workspace: WorkspaceApprovalConfig,
    pub filesystem: FilesystemApprovalConfig,
    pub commands: CommandsApprovalConfig,
}

impl Default for ApprovalsConfig {
    fn default() -> (r: Self)
        ensures
            r.mode == ApprovalMode::On,
            r.workspace.trust,
            r.filesystem.allow_read@.len() == 0,
            r.filesystem.allow_write@.len() == 0,
            r.filesystem.deny_read@.len() == 0,
            r.filesystem.deny_write@.len() == 0,
            r.commands.allow@.len() == 0,
    {
        ApprovalsConfig {
            mode: ApprovalMode::On,
            workspace: WorkspaceApprovalConfig::default(),
            filesystem: FilesystemApprovalConfig::default(),
            commands: CommandsApprovalConfig::default(),
        }
    }
}

impl ApprovalsConfig {
    /// Some command or write grant was recorded at run time.
    pub fn has_runtime_grants(&self) -> (r: bool)
        ensures
            r == (self.commands.allow@.len() > 0 || self.filesystem.allow_write@.len() > 0),
    {
        self.commands.allow.len() > 0 || self.filesystem.allow_write.len() > 0
    }

    /// The settings equal the defaults.
    pub fn is_default(&self) -> (r: bool)
        ensures
            r == (self.mode == ApprovalMode::On && self.workspace.trust
                && self.filesystem.allow_read@.len() == 0 && self.filesystem.allow_write@.len() == 0
                && self.filesystem.deny_read@.len() == 0 && self.filesystem.deny_write@.len() == 0
                && self.commands.allow@.len() == 0),
    {
        self.mode == ApprovalMode::On && self.workspace.trust && self.filesystem.is_empty()
            && self.commands.allow.len() == 0
    }
}

/// Tool-related settings under `[tools]`.
#[derive(Debug, Clone, PartialEq, Eq)]
pub struct ToolsConfig {
    pub approvals: ApprovalsConfig,
}

impl Default for ToolsConfig {
    fn default() -> (r: Self)
        ensures
            r.approvals.mode == ApprovalMode::On,
            r.approvals.workspace.trust,
            r.approvals.filesystem.allow_read@.len() == 0,
            r.approvals.filesystem.allow_write@.len() == 0,
            r.approvals.filesystem.deny_read@.len() == 0,
            r.approvals.filesystem.deny_write@.len() == 0,
            r.approvals.commands.allow@.len() == 0,
    {
        ToolsConfig { approvals: ApprovalsConfig::default() }
    }
}

/// A saved document already has `[tools.approvals]`.
pub open spec fn doc_has_tools_approvals_spec(doc: crate::config::hi_toml::TomlTable) -> bool {
    match crate::config::hi_toml::lookup(doc, "tools"@) {
        Some(crate::config::hi_toml::TomlItem::Table(t)) => crate::config::hi_toml::lookup(t, "approvals"@) is Some,
        _ => false,
    }
}

pub fn doc_has_tools_approvals_section(doc: &crate::config::hi_toml::TomlTable) -> (r: bool)
    ensures
        r == doc_has_tools_approvals_spec(*doc),
{
    match crate::config::hi_toml::get_item(doc, "tools") {
        Some(crate::config::hi_toml::TomlItem::Table(t)) => crate::config::hi_toml::get_item(t, "approvals").is_some(),
        _ => false,
    }
}

/// Whether saving the settings writes `[tools]`: when grants were recorded,
/// approvals are off, or the settings differ from the defaults; otherwise only
/// when the document has no `[tools.approvals]` yet (so hand edits survive).
pub fn should_write_tools_section(doc: &crate::config::hi_toml::TomlTable, tools: &ToolsConfig) -> (r: bool)
    ensures
        r == (tools.approvals.commands.allow@.len() > 0 || tools.approvals.filesystem.allow_write@.len() > 0
            || tools.approvals.mode == ApprovalMode::Off
            || !(tools.approvals.mode == ApprovalMode::On && tools.approvals.workspace.trust
                && tools.approvals.filesystem.allow_read@.len() == 0 && tools.approvals.filesystem.allow_write@.len() == 0
                && tools.approvals.filesystem.deny_read@.len() == 0 && tools.approvals.filesystem.deny_write@.len() == 0
                && tools.approvals.commands.allow@.len() == 0)
            || !doc_has_tools_approvals_spec(*doc)),
{
    if tools.approvals.has_runtime_grants() || tools.approvals.mode == ApprovalMode::Off {
        return true;
    }
    if !tools.approvals.is_default() {
        return true;
    }
    !doc_has_tools_approvals_section(doc)
}

} // verus!
