//! `[gateway]` runtime settings.
use vstd::prelude::*;
use crate::config::storage::clamp_spec;

verus! {

/// Default limit of concurrent agent turns across all gateway endpoints.
pub const DEFAULT_MAX_CONCURRENT_TURNS: u32 = 16;

pub const MIN_MAX_CONCURRENT_TURNS: u32 = 1;

pub const MAX_MAX_CONCURRENT_TURNS: u32 = 64;

/// Gateway runtime settings.
#[derive(Debug, Clone, PartialEq, Eq)]
pub struct GatewayConfig {
    pub max_concurrent_turns: u32,
}

impl Default for GatewayConfig {
    fn default() -> (r: Self)
        ensures
            r.max_concurrent_turns == DEFAULT_MAX_CONCURRENT_TURNS,
    {
        GatewayConfig { max_concurrent_turns: DEFAULT_MAX_CONCURRENT_TURNS }
    }
}

impl GatewayConfig {
    pub fn effective_max_concurrent_turns(&self) -> (r: usize)
        ensures
            r == clamp_spec(
                self.max_concurrent_turns as int,
                MIN_MAX_CONCURRENT_TURNS as int,
                MAX_MAX_CONCURRENT_TURNS as int,
            ),
    {
        let v = if self.max_concurrent_turns < MIN_MAX_CONCURRENT_TURNS {
            MIN_MAX_CONCURRENT_TURNS
        } else if self.max_concurrent_turns > MAX_MAX_CONCURRENT_TURNS {
            MAX_MAX_CONCURRENT_TURNS
        } else {
            self.max_concurrent_turns
        };
        v as usize
    }
}

} // verus!
