//! Layout of the `hi.toml` text: which sections come first, how nested
//! tables become `[a.b]` headers, and the hints printed above approval keys.
use vstd::prelude::*;
use crate::config::str_map::{find_key, lookup as map_lookup, StrMap};
use crate::error::Error;
use crate::text::{chars_of, push_all, push_str, str_eq, string_chars, to_string};

verus! {

/// One value of a `hi.toml` document.
#[derive(Debug)]
pub enum TomlItem {
    /// Anything but a table, held as the `key = value` line that TOML's writer
    /// prints for it under its own key.
    Line(String),
    /// A nested table.
    Table(TomlTable),
}

/// A table: its entries in the order TOML's map walks them (ascending keys).
#[derive(Debug)]
pub struct TomlTable {
    pub entries: Vec<(String, TomlItem)>,
}

impl TomlTable {
    /// The keys of the table, in order.
    pub open spec fn keys(&self) -> Seq<Seq<char>> {
        Seq::new(self.entries@.len(), |i: int| self.entries@[i].0@)
    }

    /// Keys ascend strictly, as in TOML's (B-tree) map.
    pub open spec fn sorted(&self) -> bool {
        crate::text::strictly_sorted(self.keys())
    }
}

/// `[path]` and a line break.
pub open spec fn header(path: Seq<char>) -> Seq<char> {
    seq!['['] + path + seq![']', '\n']
}

/// `path.key`.
pub open spec fn join_path(path: Seq<char>, key: Seq<char>) -> Seq<char> {
    path + seq!['.'] + key
}

/// The hint printed above an approval setting, or nothing.
pub open spec fn key_comment(section: Seq<char>, key: Seq<char>) -> Seq<char> {
    if section == "tools.approvals"@ && key == "mode"@ {
        "# on = 需确认（默认）；off = 全部免审\n"@
    } else if section == "tools.approvals.workspace"@ && key == "trust"@ {
        "# workspace 内 read/write/edit/bash 免审（hardline 与 deny 除外）\n"@
    } else if section == "tools.approvals.filesystem"@ && key == "allow_read"@ {
        "# workspace 外 read 信任前缀；用户确认后自动追加\n"@
    } else if section == "tools.approvals.filesystem"@ && key == "allow_write"@ {
        "# workspace 外 write/edit/bash 重定向 信任前缀；用户确认后自动追加\n"@
    } else if section == "tools.approvals.filesystem"@ && key == "deny_read"@ {
        "# 始终拒绝 read（如 ~/.ssh）\n"@
    } else if section == "tools.approvals.filesystem"@ && key == "deny_write"@ {
        "# 始终拒绝 write/edit/bash 重定向（如 ~/.ssh, *.pem）\n"@
    } else if section == "tools.approvals.commands"@ && key == "allow"@ {
        "# bash 危险命令免审（按真实命令名 / grant_key：sudo、curl、rm、pipe-to-shell 等）\n"@
    } else {
        seq![]
    }
}

/// A section: its header, its entries, a blank line.
pub open spec fn section_text(path: Seq<char>, t: TomlTable) -> Seq<char>
    decreases t, t.entries@.len() + 1,
{
    header(path) + entries_text(path, t, t.entries@.len() as int) + seq!['\n']
}

/// The first `n` entries of a section: a nested table becomes its own
/// `[path.key]` section in place; any other value is its line, after its hint.
pub open spec fn entries_text(path: Seq<char>, t: TomlTable, n: int) -> Seq<char>
    decreases t, n,
{
    if n <= 0 || n > t.entries@.len() {
        seq![]
    } else {
        let k = t.entries@[n - 1].0;
        let item = t.entries@[n - 1].1;
        entries_text(path, t, n - 1) + match item {
            TomlItem::Table(sub) => {
                proof {
                    assert(decreases_to!(t => t.entries));
                    assert(decreases_to!(t.entries => t.entries@));
                    assert(decreases_to!(t.entries@ => t.entries@[n - 1]));
                    assert(decreases_to!(t.entries@[n - 1] => item));
                }
                section_text(join_path(path, k@), sub)
            },
            TomlItem::Line(l) => key_comment(path, k@) + l@ + seq!['\n'],
        }
    }
}

/// First entry named `k`.
pub open spec fn lookup_from(es: Seq<(String, TomlItem)>, k: Seq<char>, i: int) -> Option<TomlItem>
    decreases es.len() - i,
{
    if i < 0 || i >= es.len() {
        None
    } else if es[i].0@ == k {
        Some(es[i].1)
    } else {
        lookup_from(es, k, i + 1)
    }
}

pub open spec fn lookup(t: TomlTable, k: Seq<char>) -> Option<TomlItem> {
    lookup_from(t.entries@, k, 0)
}

/// The first entry named `k`.
pub fn get_item<'a>(t: &'a TomlTable, k: &str) -> (r: Option<&'a TomlItem>)
    ensures
        match r {
            Some(x) => lookup(*t, k@) == Some(*x),
            None => lookup(*t, k@) is None,
        },
{
    let mut i: usize = 0;
    while i < t.entries.len()
        invariant
            i <= t.entries.len(),
            lookup(*t, k@) == lookup_from(t.entries@, k@, i as int),
        decreases t.entries.len() - i,
    {
        if str_eq(t.entries[i].0.as_str(), k) {
            return Some(&t.entries[i].1);
        }
        i += 1;
    }
    None
}

/// The hint printed above an approval setting in `section`, if it has one.
pub fn tools_key_comment(section: &Vec<char>, key: &Vec<char>) -> (r: Option<&'static str>)
    ensures
        match r {
            Some(c) => c@ == key_comment(section@, key@) && c@.len() > 0,
            None => key_comment(section@, key@) == Seq::<char>::empty(),
        },
{
    let s = to_string(section);
    let k = to_string(key);
    let s = s.as_str();
    let k = k.as_str();
    proof {
        reveal_strlit("# on = 需确认（默认）；off = 全部免审\n");
        reveal_strlit("# workspace 内 read/write/edit/bash 免审（hardline 与 deny 除外）\n");
        reveal_strlit("# workspace 外 read 信任前缀；用户确认后自动追加\n");
        reveal_strlit("# workspace 外 write/edit/bash 重定向 信任前缀；用户确认后自动追加\n");
        reveal_strlit("# 始终拒绝 read（如 ~/.ssh）\n");
        reveal_strlit("# 始终拒绝 write/edit/bash 重定向（如 ~/.ssh, *.pem）\n");
        reveal_strlit("# bash 危险命令免审（按真实命令名 / grant_key：sudo、curl、rm、pipe-to-shell 等）\n");
    }
    if str_eq(s, "tools.approvals") && str_eq(k, "mode") {
        Some("# on = 需确认（默认）；off = 全部免审\n")
    } else if str_eq(s, "tools.approvals.workspace") && str_eq(k, "trust") {
        Some("# workspace 内 read/write/edit/bash 免审（hardline 与 deny 除外）\n")
    } else if str_eq(s, "tools.approvals.filesystem") && str_eq(k, "allow_read") {
        Some("# workspace 外 read 信任前缀；用户确认后自动追加\n")
    } else if str_eq(s, "tools.approvals.filesystem") && str_eq(k, "allow_write") {
        Some("# workspace 外 write/edit/bash 重定向 信任前缀；用户确认后自动追加\n")
    } else if str_eq(s, "tools.approvals.filesystem") && str_eq(k, "deny_read") {
        Some("# 始终拒绝 read（如 ~/.ssh）\n")
    } else if str_eq(s, "tools.approvals.filesystem") && str_eq(k, "deny_write") {
        Some("# 始终拒绝 write/edit/bash 重定向（如 ~/.ssh, *.pem）\n")
    } else if str_eq(s, "tools.approvals.commands") && str_eq(k, "allow") {
        Some("# bash 危险命令免审（按真实命令名 / grant_key：sudo、curl、rm、pipe-to-shell 等）\n")
    } else {
        None
    }
}

/// `path.key` as characters.
fn join_chars_path(path: &Vec<char>, key: &String) -> (r: Vec<char>)
    ensures
        r@ == join_path(path@, key@),
{
    let mut r = path.clone();
    r.push('.');
    push_str(&mut r, key.as_str());
    r
}

/// Appends a whole section: header, entries, blank line.
fn render_table_section(out: &mut Vec<char>, path: &Vec<char>, t: &TomlTable)
    ensures
        final(out)@ == old(out)@ + section_text(path@, *t),
    decreases t,
{
    let ghost o0 = out@;
    out.push('[');
    push_all(out, path);
    out.push(']');
    out.push('\n');
    let mut i: usize = 0;
    while i < t.entries.len()
        invariant
            i <= t.entries.len(),
            out@ == o0 + header(path@) + entries_text(path@, *t, i as int),
        decreases t.entries.len() - i,
    {
        let k = &t.entries[i].0;
        match &t.entries[i].1 {
            TomlItem::Table(sub) => {
                let p = join_chars_path(path, k);
                proof {
                    assert(decreases_to!(t => t.entries));
                    assert(decreases_to!(t.entries => t.entries@));
                    assert(decreases_to!(t.entries@ => t.entries@[i as int]));
                    assert(decreases_to!(t.entries@[i as int] => t.entries@[i as int].1));
                }
                render_table_section(out, &p, sub);
            },
            TomlItem::Line(l) => {
                let kc = chars_of(k.as_str());
                match tools_key_comment(path, &kc) {
                    Some(c) => push_str(out, c),
                    None => {},
                }
                push_str(out, l.as_str());
                out.push('\n');
            },
        }
        i += 1;
    }
    out.push('\n');
}

/// One entry under `path`: a nested table is its own section, anything else
/// is its line after its hint.
pub open spec fn entry_piece(path: Seq<char>, k: Seq<char>, item: TomlItem) -> Seq<char> {
    match item {
        TomlItem::Table(sub) => section_text(join_path(path, k), sub),
        TomlItem::Line(l) => key_comment(path, k) + l@ + seq!['\n'],
    }
}

/// Under `[ai.providers]` only tables are kept: each provider becomes its own section.
pub open spec fn providers_entries(p: TomlTable, n: int) -> Seq<char>
    decreases n,
{
    if n <= 0 || n > p.entries@.len() {
        seq![]
    } else {
        providers_entries(p, n - 1) + match p.entries@[n - 1].1 {
            TomlItem::Table(sub) => section_text(join_path("ai.providers"@, p.entries@[n - 1].0@), sub),
            TomlItem::Line(_) => seq![],
        }
    }
}

/// The entries of `[ai]`, with `providers` reduced to its tables.
pub open spec fn ai_entries(t: TomlTable, n: int) -> Seq<char>
    decreases n,
{
    if n <= 0 || n > t.entries@.len() {
        seq![]
    } else {
        let k = t.entries@[n - 1].0@;
        let item = t.entries@[n - 1].1;
        ai_entries(t, n - 1) + match item {
            TomlItem::Table(p) => if k == "providers"@ {
                header(join_path("ai"@, k)) + providers_entries(p, p.entries@.len() as int) + seq!['\n']
            } else {
                entry_piece("ai"@, k, item)
            },
            TomlItem::Line(_) => entry_piece("ai"@, k, item),
        }
    }
}

/// The entries of `[tools]`: only `approvals` is kept.
pub open spec fn tools_entries(t: TomlTable, n: int) -> Seq<char>
    decreases n,
{
    if n <= 0 || n > t.entries@.len() {
        seq![]
    } else {
        let k = t.entries@[n - 1].0@;
        tools_entries(t, n - 1) + if k == "approvals"@ {
            entry_piece("tools"@, k, t.entries@[n - 1].1)
        } else {
            seq![]
        }
    }
}

/// A top-level entry: a value is its line; a table is its section, `[ai]` and
/// `[tools]` after their clean-up.
pub open spec fn root_entry_text(key: Seq<char>, item: TomlItem) -> Seq<char> {
    match item {
        TomlItem::Line(l) => l@ + seq!['\n'],
        TomlItem::Table(t) => if key == "ai"@ {
            header(key) + ai_entries(t, t.entries@.len() as int) + seq!['\n']
        } else if key == "tools"@ {
            header(key) + tools_entries(t, t.entries@.len() as int) + seq!['\n']
        } else {
            section_text(key, t)
        },
    }
}

fn push_header(out: &mut Vec<char>, path: &Vec<char>)
    ensures
        final(out)@ == old(out)@ + header(path@),
{
    out.push('[');
    push_all(out, path);
    out.push(']');
    out.push('\n');
}

/// Appends one entry under `path`.
fn render_entry(out: &mut Vec<char>, path: &Vec<char>, k: &String, item: &TomlItem)
    ensures
        final(out)@ == old(out)@ + entry_piece(path@, k@, *item),
{
    match item {
        TomlItem::Table(sub) => {
            let p = join_chars_path(path, k);
            render_table_section(out, &p, sub);
        },
        TomlItem::Line(l) => {
            let kc = chars_of(k.as_str());
            match tools_key_comment(path, &kc) {
                Some(c) => push_str(out, c),
                None => {},
            }
            push_str(out, l.as_str());
            out.push('\n');
        },
    }
}

/// Appends `[ai]`, keeping only the tables under `providers`.
fn render_ai(out: &mut Vec<char>, t: &TomlTable)
    ensures
        final(out)@ == old(out)@ + header("ai"@) + ai_entries(*t, t.entries@.len() as int) + seq!['\n'],
{
    let ghost o0 = out@;
    let ai = chars_of("ai");
    push_header(out, &ai);
    let mut i: usize = 0;
    while i < t.entries.len()
        invariant
            i <= t.entries.len(),
            ai@ == "ai"@,
            out@ == o0 + header("ai"@) + ai_entries(*t, i as int),
        decreases t.entries.len() - i,
    {
        let k = &t.entries[i].0;
        let item = &t.entries[i].1;
        let is_providers = str_eq(k.as_str(), "providers");
        match item {
            TomlItem::Table(p) if is_providers => {
                let ppath = join_chars_path(&ai, k);
                let ghost o1 = out@;
                push_header(out, &ppath);
                let mut j: usize = 0;
                while j < p.entries.len()
                    invariant
                        j <= p.entries.len(),
                        ppath@ == join_path("ai"@, "providers"@),
                        out@ == o1 + header(ppath@) + providers_entries(*p, j as int),
                    decreases p.entries.len() - j,
                {
                    match &p.entries[j].1 {
                        TomlItem::Table(sub) => {
                            proof {
                                reveal_strlit("ai.providers");
                                reveal_strlit("ai");
                                reveal_strlit("providers");
                                assert(join_path("ai"@, "providers"@) =~= "ai.providers"@);
                            }
                            let sp = join_chars_path(&ppath, &p.entries[j].0);
                            render_table_section(out, &sp, sub);
                        },
                        TomlItem::Line(_) => {},
                    }
                    j += 1;
                }
                out.push('\n');
            },
            _ => {
                render_entry(out, &ai, k, item);
            },
        }
        i += 1;
    }
    out.push('\n');
}

/// Appends `[tools]`, keeping only `approvals`.
fn render_tools(out: &mut Vec<char>, t: &TomlTable)
    ensures
        final(out)@ == old(out)@ + header("tools"@) + tools_entries(*t, t.entries@.len() as int) + seq!['\n'],
{
    let ghost o0 = out@;
    let tools = chars_of("tools");
    push_header(out, &tools);
    let mut i: usize = 0;
    while i < t.entries.len()
        invariant
            i <= t.entries.len(),
            tools@ == "tools"@,
            out@ == o0 + header("tools"@) + tools_entries(*t, i as int),
        decreases t.entries.len() - i,
    {
        if str_eq(t.entries[i].0.as_str(), "approvals") {
            render_entry(out, &tools, &t.entries[i].0, &t.entries[i].1);
        }
        i += 1;
    }
    out.push('\n');
}

/// Appends one top-level entry.
fn render_root_entry(out: &mut Vec<char>, key: &str, item: &TomlItem)
    ensures
        final(out)@ == old(out)@ + root_entry_text(key@, *item),
{
    match item {
        TomlItem::Line(l) => {
            push_str(out, l.as_str());
            out.push('\n');
        },
        TomlItem::Table(t) => {
            if str_eq(key, "ai") {
                render_ai(out, t);
            } else if str_eq(key, "tools") {
                render_tools(out, t);
            } else {
                let p = chars_of(key);
                render_table_section(out, &p, t);
            }
        },
    }
}

/// The top-level entry named `k`, if there is one.
pub open spec fn opt_root(root: TomlTable, k: Seq<char>) -> Seq<char> {
    match lookup(root, k) {
        Some(item) => root_entry_text(k, item),
        None => seq![],
    }
}

/// `[channels.http]`, when `channels` and `channels.http` are tables.
pub open spec fn http_text(root: TomlTable) -> Seq<char> {
    match lookup(root, "channels"@) {
        Some(TomlItem::Table(c)) => match lookup(c, "http"@) {
            Some(TomlItem::Table(h)) => section_text(join_path("channels"@, "http"@), h),
            _ => seq![],
        },
        _ => seq![],
    }
}

/// `[channels.<p>]`, when that entry is a table.
pub open spec fn opt_channel(c: TomlTable, p: Seq<char>) -> Seq<char> {
    match lookup(c, p) {
        Some(TomlItem::Table(t)) => section_text(join_path("channels"@, p), t),
        _ => seq![],
    }
}

pub open spec fn is_listed_channel(k: Seq<char>) -> bool {
    k == "http"@ || k == "wecom"@ || k == "feishu"@ || k == "weixin"@
}

/// Other channel tables, in key order; values that are not tables are left out.
pub open spec fn channel_rest(c: TomlTable, n: int) -> Seq<char>
    decreases n,
{
    if n <= 0 || n > c.entries@.len() {
        seq![]
    } else {
        let k = c.entries@[n - 1].0@;
        channel_rest(c, n - 1) + match c.entries@[n - 1].1 {
            TomlItem::Table(t) => if is_listed_channel(k) {
                seq![]
            } else {
                section_text(join_path("channels"@, k), t)
            },
            TomlItem::Line(_) => seq![],
        }
    }
}

/// The messaging channels: wecom, feishu, weixin, then the others.
pub open spec fn channels_text(root: TomlTable) -> Seq<char> {
    match lookup(root, "channels"@) {
        Some(TomlItem::Table(c)) => opt_channel(c, "wecom"@) + opt_channel(c, "feishu"@)
            + opt_channel(c, "weixin"@) + channel_rest(c, c.entries@.len() as int),
        _ => seq![],
    }
}

/// Top-level keys with a fixed place in the file.
pub open spec fn is_placed_root(k: Seq<char>) -> bool {
    k == "workspace"@ || k == "data_directory"@ || k == "ai"@ || k == "logging"@
        || k == "storage"@ || k == "gateway"@ || k == "locale"@ || k == "context"@
        || k == "memory"@ || k == "tools"@
}

pub open spec fn channels_is_table(root: TomlTable) -> bool {
    lookup(root, "channels"@) matches Some(TomlItem::Table(_))
}

/// The remaining top-level entries, in key order.
pub open spec fn root_rest(root: TomlTable, n: int) -> Seq<char>
    decreases n,
{
    if n <= 0 || n > root.entries@.len() {
        seq![]
    } else {
        let k = root.entries@[n - 1].0@;
        root_rest(root, n - 1) + if is_placed_root(k) || (k == "channels"@ && channels_is_table(root)) {
            seq![]
        } else {
            root_entry_text(k, root.entries@[n - 1].1)
        }
    }
}

/// The document before its final line break is ensured.
pub open spec fn document_body(root: TomlTable) -> Seq<char> {
    opt_root(root, "workspace"@) + opt_root(root, "data_directory"@) + opt_root(root, "ai"@)
        + opt_root(root, "logging"@) + opt_root(root, "storage"@) + opt_root(root, "gateway"@)
        + http_text(root) + opt_root(root, "locale"@) + opt_root(root, "context"@)
        + opt_root(root, "memory"@) + opt_root(root, "tools"@) + channels_text(root)
        + root_rest(root, root.entries@.len() as int)
}

/// The whole `hi.toml` text.
pub open spec fn document_text(root: TomlTable) -> Seq<char> {
    let b = document_body(root);
    if b.len() > 0 && b.last() != '\n' {
        b.push('\n')
    } else {
        b
    }
}

/// A rendered document that is not empty ends with a line break.
pub proof fn law_document_ends_with_newline(root: TomlTable)
    ensures
        document_text(root).len() > 0 ==> document_text(root).last() == '\n',
{
}

fn render_opt_root(out: &mut Vec<char>, root: &TomlTable, key: &str)
    ensures
        final(out)@ == old(out)@ + opt_root(*root, key@),
{
    match get_item(root, key) {
        Some(item) => render_root_entry(out, key, item),
        None => {},
    }
}

fn render_opt_channel(out: &mut Vec<char>, c: &TomlTable, p: &str)
    ensures
        final(out)@ == old(out)@ + opt_channel(*c, p@),
{
    match get_item(c, p) {
        Some(TomlItem::Table(t)) => {
            let ch = chars_of("channels");
            let path = join_chars_path(&ch, &p.to_string());
            render_table_section(out, &path, t);
        },
        _ => {},
    }
}

/// Appends the wecom, feishu and weixin sections, then the other channel tables.
fn render_im_channel_sections(out: &mut Vec<char>, channels: &TomlTable)
    ensures
        final(out)@ == old(out)@ + opt_channel(*channels, "wecom"@) + opt_channel(*channels, "feishu"@)
            + opt_channel(*channels, "weixin"@) + channel_rest(*channels, channels.entries@.len() as int),
{
    render_opt_channel(out, channels, "wecom");
    render_opt_channel(out, channels, "feishu");
    render_opt_channel(out, channels, "weixin");
    let ghost o0 = out@;
    let ch = chars_of("channels");
    let mut i: usize = 0;
    while i < channels.entries.len()
        invariant
            i <= channels.entries.len(),
            ch@ == "channels"@,
            out@ == o0 + channel_rest(*channels, i as int),
        decreases channels.entries.len() - i,
    {
        let k = &channels.entries[i].0;
        match &channels.entries[i].1 {
            TomlItem::Table(t) => {
                let ks = k.as_str();
                if !(str_eq(ks, "http") || str_eq(ks, "wecom") || str_eq(ks, "feishu")
                    || str_eq(ks, "weixin")) {
                    let path = join_chars_path(&ch, k);
                    render_table_section(out, &path, t);
                }
            },
            TomlItem::Line(_) => {},
        }
        i += 1;
    }
}

fn render_http(out: &mut Vec<char>, root: &TomlTable)
    ensures
        final(out)@ == old(out)@ + http_text(*root),
{
    match get_item(root, "channels") {
        Some(TomlItem::Table(c)) => match get_item(c, "http") {
            Some(TomlItem::Table(h)) => {
                let ch = chars_of("channels");
                let path = join_chars_path(&ch, &"http".to_string());
                render_table_section(out, &path, h);
            },
            _ => {},
        },
        _ => {},
    }
}

fn render_channels(out: &mut Vec<char>, root: &TomlTable) -> (rendered: bool)
    ensures
        final(out)@ == old(out)@ + channels_text(*root),
        rendered == channels_is_table(*root),
{
    match get_item(root, "channels") {
        Some(TomlItem::Table(c)) => {
            render_im_channel_sections(out, c);
            true
        },
        _ => false,
    }
}

fn render_root_rest(out: &mut Vec<char>, root: &TomlTable, channels_rendered: bool)
    requires
        channels_rendered == channels_is_table(*root),
    ensures
        final(out)@ == old(out)@ + root_rest(*root, root.entries@.len() as int),
{
    let ghost o0 = out@;
    let mut i: usize = 0;
    while i < root.entries.len()
        invariant
            i <= root.entries.len(),
            channels_rendered == channels_is_table(*root),
            out@ == o0 + root_rest(*root, i as int),
        decreases root.entries.len() - i,
    {
        let k = root.entries[i].0.as_str();
        let placed = str_eq(k, "workspace") || str_eq(k, "data_directory") || str_eq(k, "ai")
            || str_eq(k, "logging") || str_eq(k, "storage") || str_eq(k, "gateway")
            || str_eq(k, "locale") || str_eq(k, "context") || str_eq(k, "memory")
            || str_eq(k, "tools");
        if !(placed || (channels_rendered && str_eq(k, "channels"))) {
            render_root_entry(out, k, &root.entries[i].1);
        }
        i += 1;
    }
}

/// Renders `hi.toml`: `workspace`, `data_directory`, `[ai]`, `[logging]`,
/// `[storage]`, `[gateway]`, `[channels.http]`, `locale`, `[context]`,
/// `[memory]`, `[tools]`, the messaging channels, then every other key.
/// Within a section, nested tables become `[a.b]` sections in place and the
/// approval settings get their hint lines.
pub fn render_document(root: &TomlTable) -> (r: String)
    requires
        root.sorted(),
    ensures
        r@ == document_text(*root),
{
    let mut out: Vec<char> = Vec::new();
    render_opt_root(&mut out, root, "workspace");
    render_opt_root(&mut out, root, "data_directory");
    render_opt_root(&mut out, root, "ai");
    render_opt_root(&mut out, root, "logging");
    render_opt_root(&mut out, root, "storage");
    render_opt_root(&mut out, root, "gateway");
    render_http(&mut out, root);
    render_opt_root(&mut out, root, "locale");
    render_opt_root(&mut out, root, "context");
    render_opt_root(&mut out, root, "memory");
    render_opt_root(&mut out, root, "tools");
    let channels_rendered = render_channels(&mut out, root);
    render_root_rest(&mut out, root, channels_rendered);
    assert(out@ =~= document_body(*root));
    if out.len() > 0 && out[out.len() - 1] != '\n' {
        out.push('\n');
    }
    to_string(&out)
}

/// A table as a map from names to items.
pub open spec fn table_map(t: TomlTable) -> StrMap<TomlItem> {
    StrMap { entries: t.entries }
}

/// `r` holds every entry of `incoming`, and the entries of `existing` whose
/// names `incoming` lacks.
pub open spec fn overlaid(existing: StrMap<TomlItem>, incoming: StrMap<TomlItem>, r: StrMap<TomlItem>) -> bool {
    &&& r.wf()
    &&& forall|k: Seq<char>| #[trigger] map_lookup(r, k) == if map_lookup(incoming, k) is Some {
        map_lookup(incoming, k)
    } else {
        map_lookup(existing, k)
    }
}

/// The entry named `k` after a merge: an incoming table merges into an
/// existing table entry by entry; any other incoming value replaces.
pub open spec fn merged_entry(dst: StrMap<TomlItem>, src: StrMap<TomlItem>, k: Seq<char>, r: Option<TomlItem>) -> bool {
    match map_lookup(src, k) {
        None => r == map_lookup(dst, k),
        Some(TomlItem::Table(i)) => match map_lookup(dst, k) {
            Some(TomlItem::Table(e)) => r matches Some(TomlItem::Table(m)) && overlaid(table_map(e), table_map(i), table_map(m)),
            _ => r == map_lookup(src, k),
        },
        Some(v) => r == Some(v),
    }
}

/// Every table directly inside `t` keeps its names ascending.
pub open spec fn children_sorted(entries: Seq<(String, TomlItem)>) -> bool {
    forall|j: int| 0 <= j < entries.len() ==> ((#[trigger] entries[j]).1 matches TomlItem::Table(t) ==> t.sorted())
}

proof fn lemma_table_map_wf(t: TomlTable)
    ensures
        table_map(t).wf() == t.sorted(),
{
    assert(table_map(t).keys() =~= t.keys());
}

/// Writes every entry of `incoming` into `dst` (replacing same-named ones).
fn overlay(dst: &mut StrMap<TomlItem>, incoming: Vec<(String, TomlItem)>)
    requires
        old(dst).wf(),
        (StrMap { entries: incoming }).wf(),
    ensures
        overlaid(*old(dst), StrMap { entries: incoming }, *final(dst)),
{
    let ghost full = StrMap { entries: incoming };
    let ghost d0 = *dst;
    let mut rest = incoming;
    proof {
        assert(full.entries@.take(full.entries@.len() as int) =~= full.entries@);
        assert forall|k: Seq<char>| #[trigger] map_lookup(*dst, k) == if find_key(full.keys(), k) >= rest@.len() {
            map_lookup(full, k)
        } else {
            map_lookup(d0, k)
        } by {
            crate::config::str_map::lemma_find_key(full.keys(), k);
        }
    }
    while rest.len() > 0
        invariant
            dst.wf(),
            full.wf(),
            rest@.len() <= full.entries@.len(),
            rest@ == full.entries@.take(rest@.len() as int),
            forall|k: Seq<char>| #[trigger] map_lookup(*dst, k) == if find_key(full.keys(), k) >= rest@.len() {
                map_lookup(full, k)
            } else {
                map_lookup(d0, k)
            },
        decreases rest@.len(),
    {
        let ghost n = rest@.len() - 1;
        let (k, v) = rest.pop().unwrap();
        proof {
            crate::config::str_map::lemma_find_at(full, n);
            assert(full.entries@[n] == (k, v));
        }
        let ghost before = *dst;
        let ghost gk = k;
        let ghost gv = v;
        dst.insert(k, v);
        proof {
            crate::config::str_map::law_insert_then_find(before, *dst, gk, gv);
            assert forall|q: Seq<char>| #[trigger] map_lookup(*dst, q) == if find_key(full.keys(), q) >= n {
                map_lookup(full, q)
            } else {
                map_lookup(d0, q)
            } by {
                crate::config::str_map::lemma_find_key(full.keys(), q);
                if q != gk@ {
                    crate::config::str_map::law_insert_keeps_others(before, *dst, gk, gv, q);
                    if find_key(full.keys(), q) == n {
                        assert(full.keys()[n] == q);
                    }
                }
            }
            assert(rest@ =~= full.entries@.take(n));
        }
    }
    proof {
        assert forall|q: Seq<char>| #[trigger] map_lookup(*dst, q) == if map_lookup(full, q) is Some {
            map_lookup(full, q)
        } else {
            map_lookup(d0, q)
        } by {
            crate::config::str_map::lemma_find_key(full.keys(), q);
        }
    }
}

/// Merges `src` into `dst` (the legacy files into one document): a table
/// that both have gets the incoming entries; any other incoming value replaces.
pub fn merge_table(dst: &mut TomlTable, src: TomlTable)
    requires
        old(dst).sorted(),
        src.sorted(),
        children_sorted(old(dst).entries@),
        children_sorted(src.entries@),
    ensures
        final(dst).sorted(),
        children_sorted(final(dst).entries@),
        forall|k: Seq<char>| #[trigger] merged_entry(table_map(*old(dst)), table_map(src), k, map_lookup(table_map(*final(dst)), k)),
{
    proof {
        lemma_table_map_wf(*dst);
        lemma_table_map_wf(src);
    }
    let ghost d0 = table_map(*dst);
    let ghost full = table_map(src);
    let mut entries: Vec<(String, TomlItem)> = Vec::new();
    std::mem::swap(&mut entries, &mut dst.entries);
    let mut m = StrMap { entries };
    assert(m == d0);
    let mut rest = src.entries;
    proof {
        assert(full.entries@.take(full.entries@.len() as int) =~= full.entries@);
        assert forall|k: Seq<char>| #[trigger] map_lookup(m, k) == map_lookup(m, k) && (if find_key(full.keys(), k) >= rest@.len() {
            merged_entry(d0, full, k, map_lookup(m, k))
        } else {
            map_lookup(m, k) == map_lookup(d0, k)
        }) by {
            crate::config::str_map::lemma_find_key(full.keys(), k);
        }
    }
    while rest.len() > 0
        invariant
            m.wf(),
            full.wf(),
            d0.wf(),
            children_sorted(m.entries@),
            children_sorted(full.entries@),
            rest@.len() <= full.entries@.len(),
            rest@ == full.entries@.take(rest@.len() as int),
            forall|k: Seq<char>| #[trigger] map_lookup(m, k) == map_lookup(m, k) && (if find_key(full.keys(), k) >= rest@.len() {
                merged_entry(d0, full, k, map_lookup(m, k))
            } else {
                map_lookup(m, k) == map_lookup(d0, k)
            }),
        decreases rest@.len(),
    {
        let ghost n = rest@.len() - 1;
        let (k, v) = rest.pop().unwrap();
        proof {
            crate::config::str_map::lemma_find_at(full, n);
            assert(full.entries@[n] == (k, v));
            assert(map_lookup(full, k@) == Some(v));
        }
        let ghost before = m;
        proof {
            crate::config::str_map::lemma_find_key(before.keys(), k@);
        }
        let idx = m.index_of(k.as_str());
        let both_tables = match (&idx, &v) {
            (Some(i), TomlItem::Table(_)) => match &m.entries[*i].1 {
                TomlItem::Table(_) => true,
                TomlItem::Line(_) => false,
            },
            _ => false,
        };
        if both_tables {
            let i = idx.unwrap();
            let (ek, ev) = m.entries.remove(i);
            match (ev, v) {
                (TomlItem::Table(e), TomlItem::Table(inc)) => {
                    proof {
                        lemma_table_map_wf(e);
                        lemma_table_map_wf(inc);
                        assert(before.entries@[i as int].1 == TomlItem::Table(e));
                        assert(full.entries@[n].1 == TomlItem::Table(inc));
                        assert(map_lookup(before, k@) == Some(TomlItem::Table(e)));
                    }
                    let ghost ge = e;
                    let ghost gi = inc;
                    let mut em = StrMap { entries: e.entries };
                    assert(em == table_map(ge));
                    overlay(&mut em, inc.entries);
                    let merged = TomlTable { entries: em.entries };
                    proof {
                        assert(table_map(merged) == em);
                        assert(overlaid(table_map(ge), table_map(gi), table_map(merged)));
                    }
                    let ghost gm = TomlItem::Table(merged);
                    m.entries.insert(i, (ek, TomlItem::Table(merged)));
                    proof {
                        assert(m.entries@ =~= before.entries@.update(i as int, (ek, gm)));
                        assert(m.keys() =~= before.keys());
                        assert forall|j: int| 0 <= j < m.entries@.len() implies ((#[trigger] m.entries@[j]).1 matches TomlItem::Table(t) ==> t.sorted()) by {
                            if j != i {
                                assert(m.entries@[j] == before.entries@[j]);
                            } else {
                                lemma_table_map_wf(merged);
                            }
                        }
                        assert forall|q: Seq<char>| q != k@ implies #[trigger] map_lookup(m, q) == map_lookup(before, q) by {
                            crate::config::str_map::lemma_find_key(before.keys(), q);
                        }
                        crate::config::str_map::lemma_find_key(before.keys(), k@);
                        assert(map_lookup(m, k@) == Some(gm));
                    }
                },
                (ev2, v2) => {
                    proof {
                        assert(false);
                    }
                    m.entries.insert(i, (ek, ev2));
                    let _ = v2;
                },
            }
        } else {
            let ghost gk = k;
            let ghost gv = v;
            m.insert(k, v);
            proof {
                crate::config::str_map::law_insert_then_find(before, m, gk, gv);
                crate::config::str_map::lemma_find_key(before.keys(), gk@);
                assert forall|j: int| 0 <= j < m.entries@.len() implies ((#[trigger] m.entries@[j]).1 matches TomlItem::Table(t) ==> t.sorted()) by {
                    if find_key(before.keys(), gk@) >= 0 {
                        if j != find_key(before.keys(), gk@) {
                            assert(m.entries@[j] == before.entries@[j]);
                        }
                    } else {
                        let p = choose|p: int| 0 <= p <= before.entries@.len() && m.entries@ == before.entries@.insert(p, (gk, gv));
                        if j < p {
                            assert(m.entries@[j] == before.entries@[j]);
                        } else if j > p {
                            assert(m.entries@[j] == before.entries@[j - 1]);
                        }
                    }
                }
                assert forall|q: Seq<char>| q != gk@ implies #[trigger] map_lookup(m, q) == map_lookup(before, q) by {
                    crate::config::str_map::law_insert_keeps_others(before, m, gk, gv, q);
                }
            }
        }
        proof {
            assert forall|q: Seq<char>| #[trigger] map_lookup(m, q) == map_lookup(m, q) && (if find_key(full.keys(), q) >= n {
                merged_entry(d0, full, q, map_lookup(m, q))
            } else {
                map_lookup(m, q) == map_lookup(d0, q)
            }) by {
                crate::config::str_map::lemma_find_key(full.keys(), q);
                if q != k@ {
                    if find_key(full.keys(), q) == n {
                        assert(full.keys()[n] == q);
                    }
                }
            }
            assert(rest@ =~= full.entries@.take(n));
        }
    }
    dst.entries = m.entries;
    proof {
        lemma_table_map_wf(*dst);
        assert(dst.entries@ == m.entries@);
        assert(table_map(*dst) == m);
        assert forall|q: Seq<char>| #[trigger] merged_entry(d0, full, q, map_lookup(table_map(*dst), q)) by {
            crate::config::str_map::lemma_find_key(full.keys(), q);
        }
    }
}

// ---------------------------------------------------------------- reading the text

#[verifier::external_type_specification]
#[verifier::external_body]
pub struct ExTomlValue(toml::Value);

#[verifier::external_type_specification]
#[verifier::external_body]
#[verifier::reject_recursive_types(K)]
#[verifier::reject_recursive_types(V)]
pub struct ExTomlMap<K, V>(toml::map::Map<K, V>);

/// What TOML's parser gives for a text, in the layout form: its tables, and
/// for every other value the `key = value` line TOML's writer prints for it
/// (`None` when the text is not a TOML document or a value cannot be written).
pub uninterp spec fn toml_layout(text: Seq<char>) -> Option<TomlTable>;

/// The layout form of a table that `toml` parsed: nested tables stay tables,
/// every other value becomes the line `toml::to_string` writes for it under
/// its key. The entries come in the order of toml's map (a B-tree map, so
/// ascending names). This is the conversion of `parse_layout`'s result, kept
/// apart because it recurses into nested tables.
#[verifier::external_body]
fn layout_of(table: &toml::Table) -> (r: Result<TomlTable, String>) {
    let mut entries = Vec::new();
    for (key, value) in table {
        let item = match value {
            toml::Value::Table(sub) => TomlItem::Table(layout_of(sub)?),
            other => {
                let mut one = toml::Table::new();
                one.insert(key.clone(), other.clone());
                TomlItem::Line(toml::to_string(&one).map_err(|e| e.to_string())?.trim().to_string())
            },
        };
        entries.push((key.clone(), item));
    }
    Ok(TomlTable { entries })
}

/// `toml::from_str` into a table, converted to the layout form; the result is
/// named by `toml_layout`. Without toml's `preserve_order` feature its maps
/// are B-tree maps, so names ascend in the table and in each table inside it.
/// The error is toml's message, which is not stated.
#[verifier::external_body]
fn parse_layout(text: &str) -> (r: Result<TomlTable, String>)
    ensures
        r is Ok <==> toml_layout(text@) is Some,
        r matches Ok(t) ==> toml_layout(text@) == Some(t) && t.sorted() && children_sorted(t.entries@),
{
    layout_of(&toml::from_str::<toml::Table>(text).map_err(|e| e.to_string())?)
}

/// An empty table.
fn empty_table() -> (r: TomlTable)
    ensures
        r.entries@.len() == 0,
        r.sorted(),
        children_sorted(r.entries@),
{
    let r = TomlTable { entries: Vec::new() };
    assert(r.keys() =~= Seq::<Seq<char>>::empty());
    r
}

/// `parse hi config <path>: ` (toml's message follows).
pub open spec fn read_error_prefix(path: Seq<char>) -> Seq<char> {
    "parse hi config "@ + path + ": "@
}

/// `parse legacy <path>: ` (toml's message follows).
pub open spec fn legacy_error_prefix(path: Seq<char>) -> Seq<char> {
    "parse legacy "@ + path + ": "@
}

/// `serialize hi config: ` (toml's message follows).
pub open spec fn write_error_prefix() -> Seq<char> {
    "serialize hi config: "@
}

/// The text `m` starts with `prefix`.
pub open spec fn has_prefix(m: Seq<char>, prefix: Seq<char>) -> bool {
    m.len() >= prefix.len() && m.subrange(0, prefix.len() as int) == prefix
}

fn error_with(lead: &str, path: &str, detail: String) -> (r: Error)
    ensures
        r matches Error::Message(m) && m@ == lead@ + path@ + ": "@ + detail@,
{
    let mut v = chars_of(lead);
    push_str(&mut v, path);
    push_str(&mut v, ": ");
    push_all(&mut v, &string_chars(&detail));
    Error::Message(to_string(&v))
}

/// The document of `hi.toml`: an empty table when the file is missing
/// (`text` is `None`), else its text read as TOML; a text that is not TOML
/// is an error that names the path.
pub fn document_from_text(path: &str, text: Option<&str>) -> (r: Result<TomlTable, Error>)
    ensures
        text is None ==> (r matches Ok(t) && t.entries@.len() == 0),
        text matches Some(s) ==> (r is Ok <==> toml_layout(s@) is Some),
        text matches Some(s) ==> (r matches Ok(t) ==> toml_layout(s@) == Some(t)),
        r matches Ok(t) ==> t.sorted() && children_sorted(t.entries@),
        r matches Err(e) ==> (e matches Error::Message(m) && has_prefix(m@, read_error_prefix(path@))),
{
    match text {
        None => Ok(empty_table()),
        Some(s) => match parse_layout(s) {
            Ok(t) => Ok(t),
            Err(d) => {
                let e = error_with("parse hi config ", path, d);
                proof {
                    reveal_strlit("parse hi config ");
                    reveal_strlit(": ");
                    let m = e->Message_0@;
                    assert(m.subrange(0, read_error_prefix(path@).len() as int) =~= read_error_prefix(path@));
                }
                Err(e)
            },
        },
    }
}

/// The `hi.toml` text for a document given as TOML text: read, then laid out
/// by `render_document`.
pub fn render_toml_text(text: &str) -> (r: Result<String, Error>)
    ensures
        r is Ok <==> toml_layout(text@) is Some,
        r matches Ok(s) ==> s@ == document_text(toml_layout(text@)->0),
        r matches Err(e) ==> (e matches Error::Message(m) && has_prefix(m@, write_error_prefix())),
{
    match parse_layout(text) {
        Ok(t) => Ok(render_document(&t)),
        Err(d) => {
            let mut v = chars_of("serialize hi config: ");
            push_all(&mut v, &string_chars(&d));
            proof {
                reveal_strlit("serialize hi config: ");
                assert(v@.subrange(0, write_error_prefix().len() as int) =~= write_error_prefix());
            }
            Err(Error::Message(to_string(&v)))
        },
    }
}

/// `r` is `src` merged into `dst` (see `merge_table`).
pub open spec fn merges_into(dst: TomlTable, src: TomlTable, r: TomlTable) -> bool {
    &&& r.sorted()
    &&& children_sorted(r.entries@)
    &&& forall|k: Seq<char>| #[trigger] merged_entry(table_map(dst), table_map(src), k, map_lookup(table_map(r), k))
}

/// One legacy file (its path and text) merged into the document so far; no
/// file leaves the document as it was.
pub open spec fn legacy_step(prev: TomlTable, file: Option<(&str, &str)>, next: TomlTable) -> bool {
    match file {
        None => next == prev,
        Some((_, text)) => match toml_layout(text@) {
            Some(t) => merges_into(prev, t, next),
            None => false,
        },
    }
}

/// The path of a legacy file that exists.
pub open spec fn file_path(file: Option<(&str, &str)>) -> Seq<char> {
    match file {
        Some((path, _)) => path@,
        None => seq![],
    }
}

/// The file is missing or is TOML.
pub open spec fn legacy_readable(file: Option<(&str, &str)>) -> bool {
    match file {
        None => true,
        Some((_, text)) => toml_layout(text@) is Some,
    }
}

/// The one-time migration of the legacy `config.toml` and `channels.toml`
/// (each given as its path and text, when it exists): both merged, in that
/// order, into an empty document, which is then laid out as `hi.toml`. A file
/// that is not TOML is an error that names it.
pub fn migrated_document(config: Option<(&str, &str)>, channels: Option<(&str, &str)>) -> (r: Result<String, Error>)
    ensures
        r is Ok <==> legacy_readable(config) && legacy_readable(channels),
        !legacy_readable(config) ==> (r matches Err(Error::Message(m)) && has_prefix(m@, legacy_error_prefix(file_path(config)))),
        legacy_readable(config) && !legacy_readable(channels) ==> (r matches Err(Error::Message(m)) && has_prefix(
            m@,
            legacy_error_prefix(file_path(channels)),
        )),
        r matches Ok(s) ==> exists|e: TomlTable, m: TomlTable, d: TomlTable|
            #![trigger legacy_step(e, config, m), legacy_step(m, channels, d)]
            e.entries@.len() == 0 && legacy_step(e, config, m) && legacy_step(m, channels, d) && s@ == document_text(d),
{
    proof {
        reveal_strlit("parse legacy ");
        reveal_strlit(": ");
    }
    let mut merged = empty_table();
    let ghost e = merged;
    match config {
        Some((path, text)) => match parse_layout(text) {
            Ok(t) => merge_table(&mut merged, t),
            Err(d) => {
                let err = error_with("parse legacy ", path, d);
                proof {
                    let m = err->Message_0@;
                    assert(m.subrange(0, legacy_error_prefix(path@).len() as int) =~= legacy_error_prefix(path@));
                }
                return Err(err);
            },
        },
        None => {},
    }
    let ghost m = merged;
    match channels {
        Some((path, text)) => match parse_layout(text) {
            Ok(t) => merge_table(&mut merged, t),
            Err(d) => {
                let err = error_with("parse legacy ", path, d);
                proof {
                    let m = err->Message_0@;
                    assert(m.subrange(0, legacy_error_prefix(path@).len() as int) =~= legacy_error_prefix(path@));
                }
                return Err(err);
            },
        },
        None => {},
    }
    let text = render_document(&merged);
    proof {
        assert(legacy_step(e, config, m));
        assert(legacy_step(m, channels, merged));
    }
    Ok(text)
}

} // verus!
