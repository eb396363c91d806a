//! `[logging]` settings.
use vstd::prelude::*;
use crate::text::{ascii_lower_spec, chars_of, eq_str, to_ascii_lower, to_string, trim, trim_spec};

verus! {

/// `[logging]`: the global tracing level.
#[derive(Debug, Clone, PartialEq, Eq)]
pub struct LoggingConfig {
    pub level: String,
}

impl Default for LoggingConfig {
    fn default() -> (r: Self)
        ensures
            r.level@ == "info"@,
    {
        LoggingConfig { level: String::from_str("info") }
    }
}

pub open spec fn is_log_level(s: Seq<char>) -> bool {
    s == "trace"@ || s == "debug"@ || s == "info"@ || s == "warn"@ || s == "error"@
}

/// The level trimmed and lower-cased when it is a known one, else `info`.
pub open spec fn normalize_log_level_spec(level: Seq<char>) -> Seq<char> {
    let l = ascii_lower_spec(trim_spec(level));
    if is_log_level(l) {
        l
    } else {
        "info"@
    }
}

/// Normalizes a configured level; unknown values fall back to `info`.
pub fn normalize_log_level(level: &str) -> (r: String)
    ensures
        r@ == normalize_log_level_spec(level@),
{
    let v = chars_of(level);
    let l = to_ascii_lower(&trim(&v));
    if eq_str(&l, "trace") || eq_str(&l, "debug") || eq_str(&l, "info") || eq_str(&l, "warn")
        || eq_str(&l, "error") {
        to_string(&l)
    } else {
        String::from_str("info")
    }
}

impl LoggingConfig {
    pub fn normalized_level(&self) -> (r: String)
        ensures
            r@ == normalize_log_level_spec(self.level@),
    {
        normalize_log_level(self.level.as_str())
    }
}

} // verus!
