//! Resource limits for running plugins.

use vstd::prelude::*;

verus! {

/// The limits every run of a plugin gets.
pub struct RuntimeConfig {
    /// The most linear memory a plugin may grow to.
    pub max_memory_bytes: usize,
    /// The fuel (instruction budget) of one run.
    pub max_fuel: u64,
    /// How much fuel a run uses between two yields to the async runtime.
    pub async_yield_interval: u64,
    /// How long one run may take, in whole seconds.
    pub execution_timeout_secs: u64,
}

impl Default for RuntimeConfig {
    /// 64 MiB of memory, a billion units of fuel, a yield every ten thousand
    /// units and a timeout of thirty seconds.
    fn default() -> (c: Self)
        ensures
            c.max_memory_bytes == 64 * 1024 * 1024,
            c.max_fuel == 1_000_000_000,
            c.async_yield_interval == 10_000,
            c.execution_timeout_secs == 30,
    {
        RuntimeConfig {
            max_memory_bytes: 64 * 1024 * 1024,
            max_fuel: 1_000_000_000,
            async_yield_interval: 10_000,
            execution_timeout_secs: 30,
        }
    }
}

} // verus!
