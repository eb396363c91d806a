//! Where `hi` keeps its files, given the home directory and the override
//! variables (the caller reads the environment).
use vstd::prelude::*;
use crate::text::{
    chars_of, push_all, slice_chars, starts_with_spec, starts_with_str, eq_str, to_string,
};

verus! {

/// Appending `rest` to the path `base` as a path joins it on Unix: an absolute
/// `rest` replaces `base`; otherwise a `/` separates them unless `base` is
/// empty or already ends with one.
pub open spec fn join_spec(base: Seq<char>, rest: Seq<char>) -> Seq<char> {
    if rest.len() > 0 && rest[0] == '/' {
        rest
    } else if base.len() == 0 || base.last() == '/' {
        base + rest
    } else {
        base + seq!['/'] + rest
    }
}

/// Joins two paths as `Path::join` does on Unix.
pub fn join_path(base: &str, rest: &str) -> (r: String)
    ensures
        r@ == join_spec(base@, rest@),
{
    let b = chars_of(base);
    let r = chars_of(rest);
    if r.len() > 0 && r[0] == '/' {
        return rest.to_string();
    }
    let mut out = b.clone();
    if !(b.len() == 0 || b[b.len() - 1] == '/') {
        out.push('/');
    }
    push_all(&mut out, &r);
    to_string(&out)
}

/// A leading `~/` becomes the home directory; `~` alone is the home directory.
pub open spec fn expand_spec(path: Seq<char>, home: Seq<char>) -> Seq<char> {
    if starts_with_spec(path, "~/"@) {
        join_spec(home, path.subrange(2, path.len() as int))
    } else if path == "~"@ {
        home
    } else {
        path
    }
}

/// Expands a leading `~` to `home`.
pub fn expand_path(path: &str, home: &str) -> (r: String)
    ensures
        r@ == expand_spec(path@, home@),
{
    let p = chars_of(path);
    if starts_with_str(&p, "~/") {
        proof {
            reveal_strlit("~/");
        }
        let rest = to_string(&slice_chars(&p, 2, p.len()));
        join_path(home, rest.as_str())
    } else if eq_str(&p, "~") {
        home.to_string()
    } else {
        path.to_string()
    }
}

/// The workspace setting with `~` expanded.
pub fn normalize_workspace(path: &str, home: &str) -> (r: String)
    ensures
        r@ == expand_spec(path@, home@),
{
    expand_path(path, home)
}

/// `hi.toml`: `HI_TOML` if set, else `HI_CONFIG`, else `~/.hi/hi.toml`.
pub open spec fn hi_config_path_spec(hi_toml: Option<&str>, hi_config: Option<&str>, home: Seq<char>) -> Seq<char> {
    match hi_toml {
        Some(p) => p@,
        None => match hi_config {
            Some(p) => p@,
            None => join_spec(home, ".hi/hi.toml"@),
        },
    }
}

/// Where `hi.toml` is, given the two override variables and the home directory.
pub fn hi_config_path(hi_toml: Option<&str>, hi_config: Option<&str>, home: &str) -> (r: String)
    ensures
        r@ == hi_config_path_spec(hi_toml, hi_config, home@),
{
    match hi_toml {
        Some(p) => p.to_string(),
        None => match hi_config {
            Some(p) => p.to_string(),
            None => join_path(home, ".hi/hi.toml"),
        },
    }
}

/// What `std::path::Path::parent` gives for a path.
pub uninterp spec fn path_parent_spec(path: Seq<char>) -> Option<Seq<char>>;

/// `std::path::Path::parent`: the path without its last component. Its
/// documentation promises `None` for the empty path and for a path that ends
/// in the root, which the contract states; the rest is named, not stated.
#[verifier::external_body]
fn path_parent(path: &str) -> (r: Option<String>)
    ensures
        match r {
            Some(s) => path_parent_spec(path@) == Some(s@),
            None => path_parent_spec(path@) is None,
        },
        path@ == ""@ ==> r is None,
        path@ == "/"@ ==> r is None,
{
    std::path::Path::new(path).parent().map(|q| q.to_string_lossy().into_owned())
}

/// The directory of `hi.toml`, or `~/.hi` when that path has no parent.
pub fn hi_dir(hi_toml: Option<&str>, hi_config: Option<&str>, home: &str) -> (r: String)
    ensures
        r@ == match path_parent_spec(hi_config_path_spec(hi_toml, hi_config, home@)) {
            Some(d) => d,
            None => expand_spec("~/.hi"@, home@),
        },
{
    let config = hi_config_path(hi_toml, hi_config, home);
    match path_parent(config.as_str()) {
        Some(d) => d,
        None => expand_path("~/.hi", home),
    }
}

/// `~/.hi/logs`.
pub fn logs_directory(home: &str) -> (r: String)
    ensures
        r@ == join_spec(home@, ".hi/logs"@),
{
    join_path(home, ".hi/logs")
}

/// `~/.hi/data`.
pub fn default_data_directory(home: &str) -> (r: String)
    ensures
        r@ == join_spec(home@, ".hi/data"@),
{
    join_path(home, ".hi/data")
}

/// `~/.hi/workspace`, the default workspace of remote bots.
pub fn default_workspace(home: &str) -> (r: String)
    ensures
        r@ == join_spec(home@, ".hi/workspace"@),
{
    join_path(home, ".hi/workspace")
}

/// The same as `default_workspace`, under its earlier name.
pub fn default_working_directory(home: &str) -> (r: String)
    ensures
        r@ == join_spec(home@, ".hi/workspace"@),
{
    default_workspace(home)
}

/// The data directory: the configured one with `~` expanded, else `~/.hi/data`.
pub fn data_directory(configured: Option<&str>, home: &str) -> (r: String)
    ensures
        r@ == match configured {
            Some(d) => expand_spec(d@, home@),
            None => join_spec(home@, ".hi/data"@),
        },
{
    match configured {
        Some(d) => expand_path(d, home),
        None => default_data_directory(home),
    }
}

/// `sessions.db` in the data directory.
pub fn sessions_db_path(data_directory: &str) -> (r: String)
    ensures
        r@ == join_spec(data_directory@, "sessions.db"@),
{
    join_path(data_directory, "sessions.db")
}

} // verus!
