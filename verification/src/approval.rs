//! Approval rules for shell commands and file access.
pub mod policy;
pub mod shell_cmd;
pub mod shell_deobfuscate;

use vstd::prelude::*;
use crate::approval::policy::ApprovalPolicy;
use crate::approval::shell_cmd::{analysis_safe, dangers_spec};
use crate::config::tools::ApprovalsConfig;
use crate::messages::locale::Locale;

verus! {

/// Whether the default policy (no grants) asks for approval of `command`.
pub fn is_dangerous_command(command: &str) -> (r: bool)
    requires
        analysis_safe(command@),
    ensures
        r == (dangers_spec(command@).len() > 0),
{
    let cfg = ApprovalsConfig::default();
    let p = ApprovalPolicy::from_config(&cfg, Locale::Zh);
    assert(crate::text::views(p.command_allow@) =~= Seq::<Seq<char>>::empty());
    p.requires_approval(command)
}

} // verus!
