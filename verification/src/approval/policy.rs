//! Unified approval policy for bash and file tools.
//!
//! What the filesystem answers (resolved paths, workspace membership, prefix
//! grants, the directory to grant) reaches the decisions below as values.
use vstd::prelude::*;
use crate::approval::shell_cmd::{
    allowlisted_spec, analysis_safe, dangers_spec, is_allowlisted, is_dangerous_command,
    is_hardline_command, is_hardline_spec, primary_grant_key, primary_grant_key_spec,
};
use crate::config::tools::{
    ApprovalMode, ApprovalsConfig, CommandsApprovalConfig, FilesystemApprovalConfig,
    WorkspaceApprovalConfig,
};
use crate::error::Error;
use crate::messages::catalog::message_spec;
use crate::messages::id::MessageId;
use crate::messages::locale::Locale;
use crate::messages::t;
use crate::config::paths::{expand_path, expand_spec, join_path, join_spec};
use crate::text::{
    chars_of, push_str, slice_chars, starts_with, starts_with_spec, str_eq, string_chars,
    to_string, trim, trim_spec, views,
};

verus! {

/// A file operation that may need approval.
#[derive(Debug, Clone, Copy, PartialEq, Eq, Structural)]
pub enum FileOp {
    Read,
    Write,
}

/// What an approval grants: the command's grant key, or a path.
#[derive(Debug, Clone, PartialEq, Eq)]
pub enum GrantKind {
    Command,
    Path(String),
}

/// A pending approval: the prompt shown and what approving grants.
#[derive(Debug, Clone, PartialEq, Eq)]
pub struct ApprovalNeed {
    pub prompt: String,
    pub grant: GrantKind,
}

/// Prompt text and granted path (`None` for a command grant).
pub type NeedView = (Seq<char>, Option<Seq<char>>);

impl View for ApprovalNeed {
    type V = NeedView;

    open spec fn view(&self) -> NeedView {
        (self.prompt@, match self.grant {
            GrantKind::Command => None,
            GrantKind::Path(p) => Some(p@),
        })
    }
}

/// Unified runtime approval policy for bash and file tools.
#[derive(Debug, Clone)]
pub struct ApprovalPolicy {
    pub mode: ApprovalMode,
    pub workspace_trust: bool,
    pub allow_read: Vec<String>,
    pub allow_write: Vec<String>,
    pub deny_read: Vec<String>,
    pub deny_write: Vec<String>,
    pub command_allow: Vec<String>,
    pub locale: Locale,
}

fn clone_strings(v: &Vec<String>) -> (r: Vec<String>)
    ensures
        views(r@) == views(v@),
{
    let mut r: Vec<String> = Vec::new();
    let mut i: usize = 0;
    while i < v.len()
        invariant
            i <= v.len(),
            r@.len() == i,
            forall|k: int| 0 <= k < i ==> (#[trigger] r@[k])@ == v@[k]@,
        decreases v.len() - i,
    {
        r.push(to_string(&string_chars(&v[i])));
        i += 1;
    }
    assert(views(r@) =~= views(v@));
    r
}

/// The text of an approval prompt (bash or file kind).
pub open spec fn approval_prompt_spec(
    locale: Locale,
    kind: Seq<char>,
    detail: Seq<char>,
    grant_label: Seq<char>,
) -> Seq<char> {
    if kind == "bash"@ {
        message_spec(locale, MessageId::ApprovalPromptBash, seq![detail, grant_label])
    } else {
        message_spec(locale, MessageId::ApprovalPromptFile, seq![kind, detail, grant_label])
    }
}

pub fn format_approval_prompt(locale: Locale, kind: &str, detail: &str, grant_label: &str) -> (r:
    String)
    ensures
        r@ == approval_prompt_spec(locale, kind@, detail@, grant_label@),
{
    let mut args: Vec<String> = Vec::new();
    if str_eq(kind, "bash") {
        args.push(to_string(&chars_of(detail)));
        args.push(to_string(&chars_of(grant_label)));
        assert(views(args@) =~= seq![detail@, grant_label@]);
        t(locale, MessageId::ApprovalPromptBash, args.as_slice())
    } else {
        args.push(to_string(&chars_of(kind)));
        args.push(to_string(&chars_of(detail)));
        args.push(to_string(&chars_of(grant_label)));
        assert(views(args@) =~= seq![kind@, detail@, grant_label@]);
        t(locale, MessageId::ApprovalPromptFile, args.as_slice())
    }
}

pub open spec fn is_confirm_word(s: Seq<char>) -> bool {
    s == "确认"@ || s == "y"@ || s == "Y"@ || s == "yes"@ || s == "Yes"@ || s == "YES"@ || s
        == "approve"@ || s == "Approve"@ || s == "confirm"@ || s == "Confirm"@
}

pub open spec fn is_deny_word(s: Seq<char>) -> bool {
    s == "取消"@ || s == "n"@ || s == "N"@ || s == "no"@ || s == "No"@ || s == "NO"@ || s
        == "deny"@ || s == "Deny"@ || s == "cancel"@ || s == "Cancel"@
}

fn one_of(s: &str, words: &Vec<&'static str>) -> (r: bool)
    ensures
        r == exists|i: int| 0 <= i < words@.len() && s@ == (#[trigger] words@[i])@,
{
    let mut i: usize = 0;
    while i < words.len()
        invariant
            i <= words@.len(),
            forall|k: int| 0 <= k < i ==> s@ != (#[trigger] words@[k])@,
        decreases words@.len() - i,
    {
        if str_eq(s, words[i]) {
            return true;
        }
        i += 1;
    }
    false
}

/// Gateway and stdin accept a confirmation in Chinese or English.
pub fn is_approval_confirm(text: &str) -> (r: bool)
    ensures
        r == is_confirm_word(trim_spec(text@)),
{
    let tv = to_string(&trim(&chars_of(text)));
    let words: Vec<&'static str> = vec![
        "确认",
        "y",
        "Y",
        "yes",
        "Yes",
        "YES",
        "approve",
        "Approve",
        "confirm",
        "Confirm",
    ];
    let r = one_of(tv.as_str(), &words);
    proof {
        if is_confirm_word(tv@) {
            let w = tv@;
            if w == "确认"@ { assert(words@[0]@ == w); }
            if w == "y"@ { assert(words@[1]@ == w); }
            if w == "Y"@ { assert(words@[2]@ == w); }
            if w == "yes"@ { assert(words@[3]@ == w); }
            if w == "Yes"@ { assert(words@[4]@ == w); }
            if w == "YES"@ { assert(words@[5]@ == w); }
            if w == "approve"@ { assert(words@[6]@ == w); }
            if w == "Approve"@ { assert(words@[7]@ == w); }
            if w == "confirm"@ { assert(words@[8]@ == w); }
            if w == "Confirm"@ { assert(words@[9]@ == w); }
        }
    }
    r
}

/// Gateway and stdin accept a refusal in Chinese or English.
pub fn is_approval_deny(text: &str) -> (r: bool)
    ensures
        r == is_deny_word(trim_spec(text@)),
{
    let tv = to_string(&trim(&chars_of(text)));
    let words: Vec<&'static str> = vec![
        "取消",
        "n",
        "N",
        "no",
        "No",
        "NO",
        "deny",
        "Deny",
        "cancel",
        "Cancel",
    ];
    let r = one_of(tv.as_str(), &words);
    proof {
        if is_deny_word(tv@) {
            let w = tv@;
            if w == "取消"@ { assert(words@[0]@ == w); }
            if w == "n"@ { assert(words@[1]@ == w); }
            if w == "N"@ { assert(words@[2]@ == w); }
            if w == "no"@ { assert(words@[3]@ == w); }
            if w == "No"@ { assert(words@[4]@ == w); }
            if w == "NO"@ { assert(words@[5]@ == w); }
            if w == "deny"@ { assert(words@[6]@ == w); }
            if w == "Deny"@ { assert(words@[7]@ == w); }
            if w == "cancel"@ { assert(words@[8]@ == w); }
            if w == "Cancel"@ { assert(words@[9]@ == w); }
        }
    }
    r
}

/// The command is refused outright (a hard-block finding).
pub fn is_hardline(command: &str) -> (r: bool)
    requires
        analysis_safe(command@),
    ensures
        r == is_hardline_spec(command@),
{
    is_hardline_command(command)
}

/// The builtin danger patterns match the command.
pub fn is_builtin_dangerous(command: &str) -> (r: bool)
    requires
        analysis_safe(command@),
    ensures
        r == (dangers_spec(command@).len() > 0),
{
    is_dangerous_command(command)
}

/// The directory to grant when `parent_name` is a common source folder:
/// the folder above it, else the parent itself.
pub open spec fn is_code_subdir(name: Seq<char>) -> bool {
    name == "src"@ || name == "lib"@ || name == "test"@ || name == "tests"@ || name == "app"@
        || name == "apps"@ || name == "cmd"@ || name == "internal"@ || name == "pkg"@
}

/// Which directory to grant for a file outside any git repository: the
/// parent, or the grandparent when the parent is a common source folder.
pub fn choose_permission_dir(parent: String, parent_name: &str, grandparent: Option<String>) -> (r:
    String)
    ensures
        r@ == (if is_code_subdir(parent_name@) && grandparent is Some {
            grandparent->0@
        } else {
            parent@
        }),
{
    let code = str_eq(parent_name, "src") || str_eq(parent_name, "lib") || str_eq(
        parent_name,
        "test",
    ) || str_eq(parent_name, "tests") || str_eq(parent_name, "app") || str_eq(
        parent_name,
        "apps",
    ) || str_eq(parent_name, "cmd") || str_eq(parent_name, "internal") || str_eq(
        parent_name,
        "pkg",
    );
    if code {
        match grandparent {
            Some(g) => g,
            None => parent,
        }
    } else {
        parent
    }
}

/// The prompt for approving a file operation.
pub fn file_approval_prompt(locale: Locale, name: &str, resolved: &str, grant_dir: &str) -> (r:
    String)
    ensures
        r@ == approval_prompt_spec(
            locale,
            name@,
            resolved@,
            "filesystem.allow_write = \""@ + grant_dir@ + "\""@,
        ),
{
    let mut label = chars_of("filesystem.allow_write = \"");
    push_str(&mut label, grant_dir);
    push_str(&mut label, "\"");
    let l = to_string(&label);
    format_approval_prompt(locale, name, resolved, l.as_str())
}

/// `s` without its trailing `/` characters.
pub open spec fn trim_end_slashes(s: Seq<char>) -> Seq<char>
    decreases s.len(),
{
    if s.len() > 0 && s.last() == '/' {
        trim_end_slashes(s.drop_last())
    } else {
        s
    }
}

/// A permission pattern with `*`: after `~` expansion, a trailing `*` grants
/// every path that starts with the rest (trailing `/` dropped); without a
/// trailing `*` only the exact path matches.
pub open spec fn glob_match_spec(path: Seq<char>, pattern: Seq<char>, home: Seq<char>) -> bool {
    let pat = expand_spec(pattern, home);
    if pat.len() > 0 && pat.last() == '*' {
        starts_with_spec(path, trim_end_slashes(pat.drop_last()))
    } else {
        path == pat
    }
}

/// Whether `path` matches the permission pattern `pattern`.
pub fn glob_match(path: &str, pattern: &str, home: &str) -> (r: bool)
    ensures
        r == glob_match_spec(path@, pattern@, home@),
{
    let p = chars_of(path);
    let pat = chars_of(expand_path(pattern, home).as_str());
    if pat.len() > 0 && pat[pat.len() - 1] == '*' {
        let mut end = pat.len() - 1;
        while end > 0 && pat[end - 1] == '/'
            invariant
                end < pat.len(),
                trim_end_slashes(pat@.drop_last()) == trim_end_slashes(pat@.subrange(0, end as int)),
            decreases end,
        {
            assert(pat@.subrange(0, end as int).drop_last() =~= pat@.subrange(0, end - 1));
            end -= 1;
        }
        let prefix = slice_chars(&pat, 0, end);
        assert(pat@.drop_last() =~= pat@.subrange(0, pat@.len() - 1));
        starts_with(&p, &prefix)
    } else {
        crate::text::chars_eq(&p, &pat)
    }
}

/// A permission entry as it is matched: trimmed; empty entries and a bare `*`
/// grant nothing.
pub fn permission_entry(entry: &str) -> (r: Option<String>)
    ensures
        r matches Some(e) ==> e@ == trim_spec(entry@) && e@.len() > 0 && e@ != "*"@,
        r is None <==> (trim_spec(entry@).len() == 0 || trim_spec(entry@) == "*"@),
{
    let t = trim(&chars_of(entry));
    if t.len() == 0 || crate::text::eq_str(&t, "*") {
        None
    } else {
        Some(to_string(&t))
    }
}

/// A bash write target resolved against the workspace: absolute targets stand,
/// relative ones are joined to the workspace.
pub fn bash_target_path(workspace: &str, raw: &str) -> (r: String)
    ensures
        r@ == join_spec(workspace@, raw@),
{
    join_path(workspace, raw)
}

/// What the filesystem answered for one bash write target.
pub struct WriteTargetFacts {
    /// The target resolved against the workspace (or why that failed).
    pub resolved: Result<String, String>,
    /// The deny-write list covers the resolved path.
    pub denied: bool,
    /// The resolved path lies in the workspace (or why that could not be told).
    pub in_workspace: Result<bool, String>,
    /// The allow-write list covers the resolved path.
    pub allowed: bool,
    /// The directory to grant on approval, when one could be found.
    pub grant_dir: Option<String>,
}

/// What a file access check found for one resolved path.
pub struct FileFacts {
    pub resolved: String,
    /// The deny list of the operation covers the path.
    pub denied: bool,
    /// The path lies in the workspace (or why that could not be told).
    pub in_workspace: Result<bool, String>,
    /// The allow list of the operation covers the path.
    pub allowed: bool,
    /// The directory to grant on approval, when one could be found.
    pub grant_dir: Option<String>,
}

/// A decision: error text, or maybe a pending approval.
pub type DecisionView = Result<Option<NeedView>, Seq<char>>;

pub open spec fn decision_view(r: Result<Option<ApprovalNeed>, Error>) -> DecisionView {
    match r {
        Ok(None) => Ok(None),
        Ok(Some(n)) => Ok(Some(n@)),
        Err(Error::Message(m)) => Err(m@),
        Err(Error::Localized(_, _)) => Err(seq![]),
    }
}

pub open spec fn op_kind(op: FileOp) -> Seq<char> {
    match op {
        FileOp::Read => "read"@,
        FileOp::Write => "write"@,
    }
}

/// The approval asked for a file operation on `resolved`.
pub open spec fn file_need_spec(
    locale: Locale,
    resolved: Seq<char>,
    grant_dir: Option<Seq<char>>,
    op: FileOp,
) -> NeedView {
    let grant = match grant_dir {
        Some(g) => g,
        None => resolved,
    };
    (
        approval_prompt_spec(
            locale,
            op_kind(op),
            resolved,
            "filesystem.allow_"@ + op_kind(op) + " = \""@ + grant + "\""@,
        ),
        Some(resolved),
    )
}

/// The approval asked for a dangerous command.
pub open spec fn bash_need_spec(locale: Locale, command: Seq<char>) -> NeedView {
    (
        approval_prompt_spec(
            locale,
            "bash"@,
            command,
            "commands.allow = \""@ + primary_grant_key_spec(command) + "\""@,
        ),
        None,
    )
}

pub open spec fn opt_view(o: Option<String>) -> Option<Seq<char>> {
    match o {
        Some(s) => Some(s@),
        None => None,
    }
}

/// How the write-target scan treats one target: 0 passes, 1 resolution
/// failed, 2 denied, 3 workspace check failed, 4 needs approval.
pub open spec fn target_outcome(trust: bool, f: WriteTargetFacts) -> int {
    match f.resolved {
        Err(_) => 1,
        Ok(_) => if f.denied {
            2
        } else if trust && f.in_workspace is Err {
            3
        } else if trust && f.in_workspace == Ok::<bool, String>(true) {
            0
        } else if f.allowed {
            0
        } else {
            4
        },
    }
}

/// Index of the first target that stops the scan (the length when none does).
pub open spec fn first_stop(trust: bool, facts: Seq<WriteTargetFacts>, i: int) -> int
    decreases facts.len() - i,
{
    if i < 0 || i >= facts.len() {
        facts.len() as int
    } else if target_outcome(trust, facts[i]) != 0 {
        i
    } else {
        first_stop(trust, facts, i + 1)
    }
}

/// Whether every target lies in the workspace, or the first failure on the way.
pub open spec fn stays_go(facts: Seq<WriteTargetFacts>, i: int) -> Result<bool, Seq<char>>
    decreases facts.len() - i,
{
    if i < 0 || i >= facts.len() {
        Ok(true)
    } else {
        match facts[i].resolved {
            Err(e) => Err(e@),
            Ok(_) => match facts[i].in_workspace {
                Err(e) => Err(e@),
                Ok(false) => Ok(false),
                Ok(true) => stays_go(facts, i + 1),
            },
        }
    }
}

/// The outcome of the stopping target `f` of the write-target scan.
pub open spec fn stop_decision(locale: Locale, trust: bool, f: WriteTargetFacts) -> DecisionView {
    match f.resolved {
        Err(e) => Err(e@),
        Ok(p) => if f.denied {
            Err("bash write denied by policy: "@ + p@)
        } else if trust && f.in_workspace is Err {
            Err(f.in_workspace->Err_0@)
        } else {
            Ok(Some(file_need_spec(locale, p@, opt_view(f.grant_dir), FileOp::Write)))
        },
    }
}

impl ApprovalPolicy {
    /// The policy the settings describe, shown in `locale`.
    pub fn from_config(config: &ApprovalsConfig, locale: Locale) -> (r: Self)
        ensures
            r.mode == config.mode,
            r.workspace_trust == config.workspace.trust,
            views(r.allow_read@) == views(config.filesystem.allow_read@),
            views(r.allow_write@) == views(config.filesystem.allow_write@),
            views(r.deny_read@) == views(config.filesystem.deny_read@),
            views(r.deny_write@) == views(config.filesystem.deny_write@),
            views(r.command_allow@) == views(config.commands.allow@),
            r.locale == locale,
    {
        ApprovalPolicy {
            mode: config.mode,
            workspace_trust: config.workspace.trust,
            allow_read: clone_strings(&config.filesystem.allow_read),
            allow_write: clone_strings(&config.filesystem.allow_write),
            deny_read: clone_strings(&config.filesystem.deny_read),
            deny_write: clone_strings(&config.filesystem.deny_write),
            command_allow: clone_strings(&config.commands.allow),
            locale,
        }
    }

    /// The settings this policy holds.
    pub fn to_config(&self) -> (r: ApprovalsConfig)
        ensures
            r.mode == self.mode,
            r.workspace.trust == self.workspace_trust,
            views(r.filesystem.allow_read@) == views(self.allow_read@),
            views(r.filesystem.allow_write@) == views(self.allow_write@),
            views(r.filesystem.deny_read@) == views(self.deny_read@),
            views(r.filesystem.deny_write@) == views(self.deny_write@),
            views(r.commands.allow@) == views(self.command_allow@),
    {
        ApprovalsConfig {
            mode: self.mode,
            workspace: WorkspaceApprovalConfig { trust: self.workspace_trust },
            filesystem: FilesystemApprovalConfig {
                allow_read: clone_strings(&self.allow_read),
                allow_write: clone_strings(&self.allow_write),
                deny_read: clone_strings(&self.deny_read),
                deny_write: clone_strings(&self.deny_write),
            },
            commands: CommandsApprovalConfig { allow: clone_strings(&self.command_allow) },
        }
    }

    pub fn mode_off(&self) -> (r: bool)
        ensures
            r == (self.mode == ApprovalMode::Off),
    {
        self.mode == ApprovalMode::Off
    }

    pub fn is_hardline_blocked(&self, command: &str) -> (r: bool)
        requires
            analysis_safe(command@),
        ensures
            r == is_hardline_spec(command@),
    {
        is_hardline(command)
    }

    /// The command's findings are all granted by the command allow-list.
    pub open spec fn exempt_spec(&self, command: Seq<char>) -> bool {
        allowlisted_spec(command, views(self.command_allow@))
    }

    /// Whether the builtin danger patterns ask for approval of `command`
    /// (workspace and filesystem rules aside).
    pub open spec fn requires_approval_spec(&self, command: Seq<char>) -> bool {
        self.mode != ApprovalMode::Off && !self.exempt_spec(command) && dangers_spec(command).len()
            > 0
    }

    fn is_command_exempt(&self, command: &str) -> (r: bool)
        requires
            analysis_safe(command@),
        ensures
            r == self.exempt_spec(command@),
    {
        is_allowlisted(command, self.command_allow.as_slice())
    }

    pub fn requires_approval(&self, command: &str) -> (r: bool)
        requires
            self.mode != ApprovalMode::Off ==> analysis_safe(command@),
        ensures
            r == self.requires_approval_spec(command@),
    {
        if self.mode_off() || self.is_command_exempt(command) {
            return false;
        }
        is_builtin_dangerous(command)
    }

    /// The grant key stored when `command` is approved.
    pub fn grant_pattern(command: &str) -> (r: String)
        requires
            analysis_safe(command@),
        ensures
            r@ == primary_grant_key_spec(command@),
    {
        primary_grant_key(command)
    }

    /// Records the command's grant key in the allow-list (once, ASCII case
    /// ignored) and returns it; with approvals off or the command already
    /// exempt, nothing is recorded.
    pub fn grant_command(&mut self, command: &str) -> (r: Result<String, Error>)
        requires
            analysis_safe(command@),
        ensures
            r is Ok,
            r->Ok_0@ == primary_grant_key_spec(command@),
            final(self).mode == old(self).mode,
            final(self).workspace_trust == old(self).workspace_trust,
            final(self).allow_read@ == old(self).allow_read@,
            final(self).allow_write@ == old(self).allow_write@,
            final(self).deny_read@ == old(self).deny_read@,
            final(self).deny_write@ == old(self).deny_write@,
            final(self).locale == old(self).locale,
            views(final(self).command_allow@) == (if old(self).mode == ApprovalMode::Off
                || old(self).exempt_spec(command@) || (exists|i: int|
                0 <= i < old(self).command_allow@.len() && crate::text::eq_ignore_ascii_case_spec(
                    #[trigger] old(self).command_allow@[i]@,
                    primary_grant_key_spec(command@),
                )) {
                views(old(self).command_allow@)
            } else {
                views(old(self).command_allow@).push(primary_grant_key_spec(command@))
            }),
            single_key_findings(command@) ==> !final(self).requires_approval_spec(command@),
    {
        if self.mode_off() || self.is_command_exempt(command) {
            return Ok(Self::grant_pattern(command));
        }
        let entry = Self::grant_pattern(command);
        let ev = string_chars(&entry);
        let mut found = false;
        let mut i: usize = 0;
        while i < self.command_allow.len()
            invariant
                i <= self.command_allow@.len(),
                ev@ == entry@,
                found == exists|k: int|
                    0 <= k < i && crate::text::eq_ignore_ascii_case_spec(
                        #[trigger] self.command_allow@[k]@,
                        ev@,
                    ),
            decreases self.command_allow@.len() - i,
        {
            let pv = string_chars(&self.command_allow[i]);
            if crate::text::eq_ignore_ascii_case(&pv, &ev) {
                found = true;
            }
            i += 1;
        }
        if !found {
            let ghost before = views(self.command_allow@);
            let copy = to_string(&ev);
            self.command_allow.push(copy);
            assert(views(self.command_allow@) =~= before.push(ev@));
            proof {
                if single_key_findings(command@) {
                    let j = self.command_allow@.len() - 1;
                    assert(self.command_allow@[j]@ == ev@);
                    law_granted_key_exempts(*self, command@, j);
                }
            }
        } else {
            proof {
                if single_key_findings(command@) {
                    let j = choose|k: int| 0 <= k < self.command_allow@.len()
                        && crate::text::eq_ignore_ascii_case_spec(#[trigger] self.command_allow@[k]@, ev@);
                    law_granted_key_exempts(*self, command@, j);
                }
            }
        }
        Ok(entry)
    }

    pub fn grant_for_command(&mut self, command: &str) -> (r: Result<String, Error>)
        requires
            analysis_safe(command@),
        ensures
            r is Ok,
            r->Ok_0@ == primary_grant_key_spec(command@),
            final(self).mode == old(self).mode,
            final(self).locale == old(self).locale,
    {
        self.grant_command(command)
    }

    /// Adds `entry` (the directory granted for a path) to the read and write
    /// allow-lists, each unless already there, and returns it.
    pub fn grant_path(&mut self, entry: &str) -> (r: Result<String, Error>)
        ensures
            r is Ok,
            r->Ok_0@ == entry@,
            views(final(self).allow_read@) == (if exists|i: int|
                0 <= i < old(self).allow_read@.len() && (#[trigger] old(self).allow_read@[i])@
                    == entry@ {
                views(old(self).allow_read@)
            } else {
                views(old(self).allow_read@).push(entry@)
            }),
            views(final(self).allow_write@) == (if exists|i: int|
                0 <= i < old(self).allow_write@.len() && (#[trigger] old(self).allow_write@[i])@
                    == entry@ {
                views(old(self).allow_write@)
            } else {
                views(old(self).allow_write@).push(entry@)
            }),
            final(self).command_allow@ == old(self).command_allow@,
            final(self).deny_read@ == old(self).deny_read@,
            final(self).deny_write@ == old(self).deny_write@,
            final(self).workspace_trust == old(self).workspace_trust,
            final(self).mode == old(self).mode,
            final(self).locale == old(self).locale,
    {
        add_unique(&mut self.allow_read, entry);
        add_unique(&mut self.allow_write, entry);
        Ok(to_string(&chars_of(entry)))
    }

    /// The same as `grant_path`.
    pub fn grant_for_path(&mut self, entry: &str) -> (r: Result<String, Error>)
        ensures
            r is Ok,
            r->Ok_0@ == entry@,
            views(final(self).allow_read@) == (if exists|i: int|
                0 <= i < old(self).allow_read@.len() && (#[trigger] old(self).allow_read@[i])@
                    == entry@ {
                views(old(self).allow_read@)
            } else {
                views(old(self).allow_read@).push(entry@)
            }),
            views(final(self).allow_write@) == (if exists|i: int|
                0 <= i < old(self).allow_write@.len() && (#[trigger] old(self).allow_write@[i])@
                    == entry@ {
                views(old(self).allow_write@)
            } else {
                views(old(self).allow_write@).push(entry@)
            }),
            final(self).command_allow@ == old(self).command_allow@,
            final(self).deny_read@ == old(self).deny_read@,
            final(self).deny_write@ == old(self).deny_write@,
            final(self).workspace_trust == old(self).workspace_trust,
            final(self).mode == old(self).mode,
            final(self).locale == old(self).locale,
    {
        self.grant_path(entry)
    }

    fn bash_approval_need(&self, command: &str) -> (r: ApprovalNeed)
        requires
            analysis_safe(command@),
        ensures
            r@ == bash_need_spec(self.locale, command@),
    {
        let grant = Self::grant_pattern(command);
        let mut label = chars_of("commands.allow = \"");
        push_str(&mut label, grant.as_str());
        push_str(&mut label, "\"");
        let l = to_string(&label);
        ApprovalNeed {
            prompt: format_approval_prompt(self.locale, "bash", command, l.as_str()),
            grant: GrantKind::Command,
        }
    }

    fn file_approval_need(&self, resolved: &str, grant_dir: &Option<String>, op: FileOp) -> (r:
        ApprovalNeed)
        ensures
            r@ == file_need_spec(self.locale, resolved@, opt_view(*grant_dir), op),
    {
        let grant = match grant_dir {
            Some(g) => g.as_str(),
            None => resolved,
        };
        let kind = match op {
            FileOp::Read => "read",
            FileOp::Write => "write",
        };
        let mut label = chars_of("filesystem.allow_");
        push_str(&mut label, kind);
        push_str(&mut label, " = \"");
        push_str(&mut label, grant);
        push_str(&mut label, "\"");
        let l = to_string(&label);
        ApprovalNeed {
            prompt: format_approval_prompt(self.locale, kind, resolved, l.as_str()),
            grant: GrantKind::Path(to_string(&chars_of(resolved))),
        }
    }

    /// The bash decision, given what the filesystem answered for each of the
    /// command's write targets (in the order `bash_write_targets` gives them).
    pub open spec fn bash_decision_spec(&self, command: Seq<char>, facts: Seq<WriteTargetFacts>) -> DecisionView {
        let k = first_stop(self.workspace_trust, facts, 0);
        if self.mode == ApprovalMode::Off || is_hardline_spec(command) {
            Ok(None)
        } else if k < facts.len() {
            stop_decision(self.locale, self.workspace_trust, facts[k])
        } else if self.workspace_trust && stays_go(facts, 0) is Err {
            Err(stays_go(facts, 0)->Err_0)
        } else if self.workspace_trust && stays_go(facts, 0) == Ok::<bool, Seq<char>>(true) {
            Ok(None)
        } else if !self.exempt_spec(command) && dangers_spec(command).len() > 0 {
            Ok(Some(bash_need_spec(self.locale, command)))
        } else {
            Ok(None)
        }
    }

    /// Whether running `command` needs approval, given the filesystem facts
    /// of its write targets.
    #[verifier::loop_isolation(false)]
    pub fn requires_bash_approval(&self, command: &str, facts: &Vec<WriteTargetFacts>) -> (r:
        Result<Option<ApprovalNeed>, Error>)
        requires
            self.mode != ApprovalMode::Off ==> analysis_safe(command@),
        ensures
            decision_view(r) == self.bash_decision_spec(command@, facts@),
            !(r matches Err(Error::Localized(_, _))),
    {
        if self.mode_off() {
            return Ok(None);
        }
        if is_hardline(command) {
            return Ok(None);
        }
        let trust = self.workspace_trust;
        let mut i: usize = 0;
        while i < facts.len()
            invariant
                i <= facts@.len(),
                trust == self.workspace_trust,
                first_stop(trust, facts@, i as int) == first_stop(trust, facts@, 0),
            decreases facts@.len() - i,
        {
            let f = &facts[i];
            let stop = match &f.resolved {
                Err(_) => true,
                Ok(_) => {
                    if f.denied {
                        true
                    } else if trust && f.in_workspace.is_err() {
                        true
                    } else if trust && match &f.in_workspace {
                        Ok(b) => *b,
                        Err(_) => false,
                    } {
                        false
                    } else {
                        !f.allowed
                    }
                },
            };
            if stop {
                assert(first_stop(trust, facts@, i as int) == i);
                return match &f.resolved {
                    Err(e) => Err(Error::Message(to_string(&string_chars(e)))),
                    Ok(p) => {
                        if f.denied {
                            let mut m = chars_of("bash write denied by policy: ");
                            push_str(&mut m, p.as_str());
                            Err(Error::Message(to_string(&m)))
                        } else {
                            match &f.in_workspace {
                                Err(e) if trust => Err(Error::Message(to_string(&string_chars(e)))),
                                _ => Ok(
                                    Some(
                                        self.file_approval_need(
                                            p.as_str(),
                                            &f.grant_dir,
                                            FileOp::Write,
                                        ),
                                    ),
                                ),
                            }
                        }
                    },
                };
            }
            i += 1;
        }
        if trust {
            let mut j: usize = 0;
            while j < facts.len()
                invariant
                    j <= facts@.len(),
                    stays_go(facts@, j as int) == stays_go(facts@, 0),
                decreases facts@.len() - j,
            {
                let f = &facts[j];
                match &f.resolved {
                    Err(e) => {
                        return Err(Error::Message(to_string(&string_chars(e))));
                    },
                    Ok(_) => {},
                }
                match &f.in_workspace {
                    Err(e) => {
                        return Err(Error::Message(to_string(&string_chars(e))));
                    },
                    Ok(b) => {
                        if !*b {
                            break ;
                        }
                    },
                }
                j += 1;
            }
            if j == facts.len() {
                return Ok(None);
            }
        }
        if !self.is_command_exempt(command) && is_builtin_dangerous(command) {
            return Ok(Some(self.bash_approval_need(command)));
        }
        Ok(None)
    }

    /// The file decision for one resolved path.
    pub open spec fn file_decision_spec(&self, f: FileFacts, op: FileOp) -> DecisionView {
        if self.mode == ApprovalMode::Off {
            Ok(None)
        } else if f.denied {
            Err("file access denied by policy: "@ + f.resolved@)
        } else if self.workspace_trust && f.in_workspace is Err {
            Err(f.in_workspace->Err_0@)
        } else if self.workspace_trust && f.in_workspace == Ok::<bool, String>(true) {
            Ok(None)
        } else if f.allowed {
            Ok(None)
        } else {
            Ok(Some(file_need_spec(self.locale, f.resolved@, opt_view(f.grant_dir), op)))
        }
    }

    /// Whether a file operation needs approval, given what the filesystem
    /// answered for the resolved path.
    pub fn requires_file_approval(&self, facts: &FileFacts, op: FileOp) -> (r: Result<
        Option<ApprovalNeed>,
        Error,
    >)
        ensures
            decision_view(r) == self.file_decision_spec(*facts, op),
            !(r matches Err(Error::Localized(_, _))),
    {
        if self.mode_off() {
            return Ok(None);
        }
        if facts.denied {
            let mut m = chars_of("file access denied by policy: ");
            push_str(&mut m, facts.resolved.as_str());
            return Err(Error::Message(to_string(&m)));
        }
        if self.workspace_trust {
            match &facts.in_workspace {
                Err(e) => {
                    return Err(Error::Message(to_string(&string_chars(e))));
                },
                Ok(b) => {
                    if *b {
                        return Ok(None);
                    }
                },
            }
        }
        if facts.allowed {
            return Ok(None);
        }
        Ok(Some(self.file_approval_need(facts.resolved.as_str(), &facts.grant_dir, op)))
    }
}

fn add_unique(list: &mut Vec<String>, entry: &str)
    ensures
        views(final(list)@) == (if exists|i: int|
            0 <= i < old(list)@.len() && (#[trigger] old(list)@[i])@ == entry@ {
            views(old(list)@)
        } else {
            views(old(list)@).push(entry@)
        }),
{
    let mut i: usize = 0;
    while i < list.len()
        invariant
            i <= list@.len(),
            forall|k: int| 0 <= k < i ==> (#[trigger] list@[k])@ != entry@,
        decreases list@.len() - i,
    {
        if str_eq(list[i].as_str(), entry) {
            return;
        }
        i += 1;
    }
    let ghost before = views(list@);
    list.push(to_string(&chars_of(entry)));
    assert(views(list@) =~= before.push(entry@));
}

/// Every finding of `command` carries its grant key, and that key is a
/// non-empty word without white space at its ends.
pub open spec fn single_key_findings(command: Seq<char>) -> bool {
    let d = dangers_spec(command);
    let k = primary_grant_key_spec(command);
    &&& d.len() > 0
    &&& forall|i: int| 0 <= i < d.len() ==> (#[trigger] d[i]).0 == k
    &&& k.len() > 0
    &&& !crate::text::is_ws_spec(k[0])
    &&& !crate::text::is_ws_spec(k.last())
}

proof fn lemma_lower_keeps_ws(c: char)
    ensures
        crate::text::is_ws_spec(crate::text::ascii_lower_char(c)) == crate::text::is_ws_spec(c),
{
    if 'A' <= c && c <= 'Z' {
        let u = c as u32;
        assert(65 <= u <= 90);
        let l = crate::text::ascii_lower_char(c);
        assert(((u as u8 + 32) as u8) as u32 == u + 32) by (bit_vector)
            requires
                65 <= u <= 90;
        assert(l as u32 == u + 32);
    }
}

/// An allow-list entry equal to `key` (ASCII case aside) grants `key` when the
/// key has no white space at its ends.
proof fn lemma_entry_grants(entry: Seq<char>, key: Seq<char>)
    requires
        crate::text::eq_ignore_ascii_case_spec(entry, key),
        key.len() > 0,
        !crate::text::is_ws_spec(key[0]),
        !crate::text::is_ws_spec(key.last()),
    ensures
        crate::approval::shell_cmd::allow_entry_matches(entry, key),
{
    let le = crate::text::ascii_lower_spec(entry);
    let lk = crate::text::ascii_lower_spec(key);
    assert(le.len() == entry.len() && lk.len() == key.len());
    assert(entry.len() == key.len());
    assert(le[0] == lk[0]);
    assert(le[entry.len() - 1] == lk[key.len() - 1]);
    lemma_lower_keeps_ws(entry[0]);
    lemma_lower_keeps_ws(key[0]);
    lemma_lower_keeps_ws(entry.last());
    lemma_lower_keeps_ws(key.last());
    assert(!crate::text::is_ws_spec(entry[0]));
    assert(!crate::text::is_ws_spec(entry.last()));
    assert(crate::text::trim_start_spec(entry) == entry);
    assert(crate::text::trim_end_spec(entry) == entry);
}

/// Once the allow-list holds a command's grant key (ASCII case aside), a
/// command whose findings all carry that key is exempt and needs no approval.
pub proof fn law_granted_key_exempts(p: ApprovalPolicy, command: Seq<char>, j: int)
    requires
        single_key_findings(command),
        0 <= j < p.command_allow@.len(),
        crate::text::eq_ignore_ascii_case_spec(p.command_allow@[j]@, primary_grant_key_spec(command)),
    ensures
        p.exempt_spec(command),
        !p.requires_approval_spec(command),
{
    let d = dangers_spec(command);
    let k = primary_grant_key_spec(command);
    let allow = views(p.command_allow@);
    lemma_entry_grants(p.command_allow@[j]@, k);
    assert(allow[j] == p.command_allow@[j]@);
    assert forall|i: int| 0 <= i < d.len() implies exists|m: int|
        0 <= m < allow.len() && crate::approval::shell_cmd::allow_entry_matches(allow[m], #[trigger] d[i].0) by {
        assert(d[i].0 == k);
        assert(crate::approval::shell_cmd::allow_entry_matches(allow[j], d[i].0));
    }
}

/// With approvals off, neither bash commands nor file accesses ever wait for
/// approval, whatever the filesystem answered.
pub proof fn law_approvals_off_never_ask(
    p: ApprovalPolicy,
    command: Seq<char>,
    targets: Seq<WriteTargetFacts>,
    f: FileFacts,
    op: FileOp,
)
    requires
        p.mode == ApprovalMode::Off,
    ensures
        p.bash_decision_spec(command, targets) == Ok::<Option<NeedView>, Seq<char>>(None),
        p.file_decision_spec(f, op) == Ok::<Option<NeedView>, Seq<char>>(None),
        !p.requires_approval_spec(command),
{
}

/// With approvals on, a path on the deny list of the operation is refused,
/// even inside a trusted workspace.
pub proof fn law_deny_list_refuses(p: ApprovalPolicy, f: FileFacts, op: FileOp)
    requires
        p.mode == ApprovalMode::On,
        f.denied,
    ensures
        p.file_decision_spec(f, op) is Err,
{
}

/// With approvals on, a path that is not denied and that the allow list of
/// the operation covers is let through without asking, whatever the
/// workspace answered (a workspace error is still reported first when the
/// workspace is trusted). A path that the allow list does not cover, outside
/// a trusted workspace, waits for approval of exactly that path.
pub proof fn law_allow_list_lets_through(p: ApprovalPolicy, f: FileFacts, op: FileOp)
    requires
        p.mode != ApprovalMode::Off,
        !f.denied,
        !p.workspace_trust || f.in_workspace is Ok,
    ensures
        f.allowed ==> p.file_decision_spec(f, op) == Ok::<Option<NeedView>, Seq<char>>(None),
        !f.allowed && !p.workspace_trust ==> p.file_decision_spec(f, op) == Ok::<
            Option<NeedView>,
            Seq<char>,
        >(Some(file_need_spec(p.locale, f.resolved@, opt_view(f.grant_dir), op))),
{
}

/// With approvals on and the workspace trusted, a path that is not denied
/// and lies in the workspace is let through; when the workspace question
/// failed, its error is the answer.
pub proof fn law_trusted_workspace_lets_through(p: ApprovalPolicy, f: FileFacts, op: FileOp)
    requires
        p.mode != ApprovalMode::Off,
        !f.denied,
        p.workspace_trust,
    ensures
        f.in_workspace == Ok::<bool, String>(true) ==> p.file_decision_spec(f, op) == Ok::<
            Option<NeedView>,
            Seq<char>,
        >(None),
        f.in_workspace is Err ==> p.file_decision_spec(f, op) == Err::<Option<NeedView>, Seq<char>>(
            f.in_workspace->Err_0@,
        ),
{
}

} // verus!
