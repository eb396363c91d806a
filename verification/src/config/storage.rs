//! `[storage]` settings of the session store.
use vstd::prelude::*;

verus! {

/// Default read-only connection pool size.
pub const DEFAULT_READ_POOL_SIZE: u32 = 4;

pub const MIN_READ_POOL_SIZE: u32 = 2;

pub const MAX_READ_POOL_SIZE: u32 = 8;

/// `x` limited to `[lo, hi]`.
pub open spec fn clamp_spec(x: int, lo: int, hi: int) -> int {
    if x < lo {
        lo
    } else if x > hi {
        hi
    } else {
        x
    }
}

/// SQLite session store settings.
#[derive(Debug, Clone, PartialEq, Eq)]
pub struct StorageConfig {
    pub read_pool_size: u32,
}

impl Default for StorageConfig {
    fn default() -> (r: Self)
        ensures
            r.read_pool_size == DEFAULT_READ_POOL_SIZE,
    {
        StorageConfig { read_pool_size: DEFAULT_READ_POOL_SIZE }
    }
}

impl StorageConfig {
    pub fn effective_read_pool_size(&self) -> (r: u32)
        ensures
            r == clamp_spec(self.read_pool_size as int, MIN_READ_POOL_SIZE as int, MAX_READ_POOL_SIZE as int),
    {
        if self.read_pool_size < MIN_READ_POOL_SIZE {
            MIN_READ_POOL_SIZE
        } else if self.read_pool_size > MAX_READ_POOL_SIZE {
            MAX_READ_POOL_SIZE
        } else {
            self.read_pool_size
        }
    }
}

} // verus!
