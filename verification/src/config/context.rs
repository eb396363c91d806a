//! Context window settings (`[context]`), in thousands of tokens.
use vstd::prelude::*;

verus! {

/// Context settings: window, compression point, protected tail and reserve
/// in thousands of tokens, and tool-output limits.
#[derive(Debug, Clone)]
pub struct ContextConfig {
    pub enabled: bool,
    pub window_k: u32,
    pub compress_at_k: u32,
    pub protect_tail_k: u32,
    pub reserve_k: u32,
    pub tool_output_max_chars: usize,
    pub trim_keep_chars: usize,
    pub max_tool_iterations: usize,
}

/// Thousands of tokens as tokens, saturating at `u32::MAX`.
pub open spec fn k_tokens(k: u32) -> int {
    if k as int * 1000 > u32::MAX {
        u32::MAX as int
    } else {
        k as int * 1000
    }
}

fn k_to_tokens(k: u32) -> (r: usize)
    ensures
        r == k_tokens(k),
{
    if k > u32::MAX / 1000 {
        u32::MAX as usize
    } else {
        (k * 1000) as usize
    }
}

pub fn default_window_k() -> (r: u32)
    ensures
        r == 128,
{
    128
}

pub fn default_compress_at_k() -> (r: u32)
    ensures
        r == 96,
{
    96
}

pub fn default_protect_tail_k() -> (r: u32)
    ensures
        r == 32,
{
    32
}

pub fn default_reserve_k() -> (r: u32)
    ensures
        r == 16,
{
    16
}

pub fn default_max_tool_iterations() -> (r: usize)
    ensures
        r == 12,
{
    12
}

impl Default for ContextConfig {
    fn default() -> (r: Self)
        ensures
            r.enabled,
            r.window_k == 128,
            r.compress_at_k == 96,
            r.protect_tail_k == 32,
            r.reserve_k == 16,
            r.tool_output_max_chars == 16384,
            r.trim_keep_chars == 2048,
            r.max_tool_iterations == 12,
    {
        ContextConfig {
            enabled: true,
            window_k: default_window_k(),
            compress_at_k: default_compress_at_k(),
            protect_tail_k: default_protect_tail_k(),
            reserve_k: default_reserve_k(),
            tool_output_max_chars: 16384,
            trim_keep_chars: 2048,
            max_tool_iterations: default_max_tool_iterations(),
        }
    }
}

impl ContextConfig {
    pub fn window_tokens(&self) -> (r: usize)
        ensures
            r == k_tokens(self.window_k),
    {
        k_to_tokens(self.window_k)
    }

    pub fn compression_threshold_tokens(&self) -> (r: usize)
        ensures
            r == k_tokens(self.compress_at_k),
    {
        k_to_tokens(self.compress_at_k)
    }

    pub fn protect_tail_tokens(&self) -> (r: usize)
        ensures
            r == k_tokens(self.protect_tail_k),
    {
        k_to_tokens(self.protect_tail_k)
    }

    pub fn reserve_tokens(&self) -> (r: usize)
        ensures
            r == k_tokens(self.reserve_k),
    {
        k_to_tokens(self.reserve_k)
    }
}

/// `[context]` as written, older keys included (the float
/// `compress_threshold` is applied by the caller, see `from_raw`).
pub struct ContextConfigRaw {
    pub enabled: bool,
    pub window_k: Option<u32>,
    pub compress_at_k: Option<u32>,
    pub protect_tail_k: Option<u32>,
    pub reserve_k: Option<u32>,
    pub max_tokens: Option<usize>,
    pub keep_recent_turns: Option<usize>,
    pub tool_output_max_chars: Option<usize>,
    pub trim_keep_chars: Option<usize>,
    pub max_tool_iterations: Option<usize>,
}

/// Tokens as thousands, rounded up, at least 8, cut to 32 bits.
pub open spec fn tokens_to_k_spec(tokens: usize) -> u32 {
    let k = (tokens as int + 999) / 1000;
    (if k < 8 {
        8
    } else {
        k
    }) as u32
}

pub fn tokens_to_k(tokens: usize) -> (r: u32)
    ensures
        r == tokens_to_k_spec(tokens),
{
    let q = tokens / 1000;
    let rem = tokens % 1000;
    let k = q + if rem > 0 {
        1usize
    } else {
        0usize
    };
    assert(k == (tokens as int + 999) / 1000) by (nonlinear_arith)
        requires
            q == tokens as int / 1000,
            rem == tokens as int % 1000,
            k == q + if rem > 0 { 1int } else { 0int },
            tokens >= 0,
    ;
    let m = if k < 8 {
        8
    } else {
        k
    };
    #[verifier::truncate]
    (m as u32)
}

/// The window in thousands of tokens: `window_k`, else from `max_tokens`, else the default.
pub open spec fn raw_window_k(raw: ContextConfigRaw) -> u32 {
    match raw.window_k {
        Some(w) => w,
        None => match raw.max_tokens {
            Some(t) => tokens_to_k_spec(t),
            None => 128,
        },
    }
}

pub fn window_k_of(raw: &ContextConfigRaw) -> (r: u32)
    ensures
        r == raw_window_k(*raw),
{
    match raw.window_k {
        Some(w) => w,
        None => match raw.max_tokens {
            Some(t) => tokens_to_k(t),
            None => default_window_k(),
        },
    }
}

/// `max(x, 8)`.
pub open spec fn at_least_8(x: u32) -> u32 {
    if x < 8 {
        8
    } else {
        x
    }
}

impl ContextConfig {
    /// Settings from `[context]` as written. `threshold_k` is the window times
    /// the float `compress_threshold`, cut to an integer, when that key is set.
    pub fn from_raw(raw: ContextConfigRaw, threshold_k: Option<u32>) -> (r: ContextConfig)
        requires
            raw.compress_at_k is None && threshold_k is None && raw.max_tokens is Some
                ==> raw.max_tokens->0 * 8 <= usize::MAX,
            raw.protect_tail_k is None && raw.keep_recent_turns is Some ==> (
            #[verifier::truncate]
            (raw.keep_recent_turns->0 as u32)) as int * 4 <= u32::MAX,
        ensures
            r.enabled == raw.enabled,
            r.window_k == raw_window_k(raw),
            r.compress_at_k == match raw.compress_at_k {
                Some(c) => c,
                None => match threshold_k {
                    Some(t) => at_least_8(t),
                    None => match raw.max_tokens {
                        Some(m) => tokens_to_k_spec((m * 8 / 10) as usize),
                        None => 96,
                    },
                },
            },
            r.protect_tail_k == match raw.protect_tail_k {
                Some(p) => p,
                None => match raw.keep_recent_turns {
                    Some(n) => at_least_8(((#[verifier::truncate] (n as u32)) * 4) as u32),
                    None => 32,
                },
            },
            r.reserve_k == match raw.reserve_k {
                Some(v) => v,
                None => 16,
            },
            r.tool_output_max_chars == match raw.tool_output_max_chars {
                Some(v) => v,
                None => 16384,
            },
            r.trim_keep_chars == match raw.trim_keep_chars {
                Some(v) => v,
                None => 2048,
            },
            r.max_tool_iterations == match raw.max_tool_iterations {
                Some(v) => v,
                None => 12,
            },
    {
        let window_k = window_k_of(&raw);
        let compress_at_k = match raw.compress_at_k {
            Some(c) => c,
            None => match threshold_k {
                Some(t) => if t < 8 {
                    8
                } else {
                    t
                },
                None => match raw.max_tokens {
                    Some(m) => tokens_to_k(m * 8 / 10),
                    None => default_compress_at_k(),
                },
            },
        };
        let protect_tail_k = match raw.protect_tail_k {
            Some(p) => p,
            None => match raw.keep_recent_turns {
                Some(n) => {
                    #[verifier::truncate]
                    let t = n as u32;
                    let x = t * 4;
                    if x < 8 {
                        8
                    } else {
                        x
                    }
                },
                None => default_protect_tail_k(),
            },
        };
        ContextConfig {
            enabled: raw.enabled,
            window_k,
            compress_at_k,
            protect_tail_k,
            reserve_k: match raw.reserve_k {
                Some(v) => v,
                None => default_reserve_k(),
            },
            tool_output_max_chars: match raw.tool_output_max_chars {
                Some(v) => v,
                None => 16384,
            },
            trim_keep_chars: match raw.trim_keep_chars {
                Some(v) => v,
                None => 2048,
            },
            max_tool_iterations: match raw.max_tool_iterations {
                Some(v) => v,
                None => default_max_tool_iterations(),
            },
        }
    }
}

} // verus!
