//! Dynamic rebalancing of quorum slices: enabling it with its parameters
//! and counting the rebalancing runs of an enabled slice.
use vstd::prelude::*;

verus! {

/// Rebalancing settings of a slice.
#[derive(Clone, Copy, Debug, PartialEq, Eq, Structural)]
pub struct RebalancingConfig {
    pub target_weight: u32,
    pub rebalance_interval: u64,
    pub enabled: bool,
}

/// Run rebalancing for a slice whose runs so far are `count`: only an
/// enabled slice runs, and its count grows by one. Returns the new count.
pub fn execute_rebalancing(enabled: bool, count: u64) -> (n: u64)
    requires
        enabled ==> count < u64::MAX,
    ensures
        n == (if enabled { count + 1 } else { count as int }),
{
    if !enabled {
        return count;
    }
    count + 1
}

/// Periodic rebalancing is a rebalancing run.
pub fn implement_periodic_rebalancing(enabled: bool, count: u64) -> (n: u64)
    requires
        enabled ==> count < u64::MAX,
    ensures
        n == (if enabled { count + 1 } else { count as int }),
{
    execute_rebalancing(enabled, count)
}

/// Whether rebalancing is enabled for a slice (off unless set).
pub fn is_rebalancing_enabled(stored: Option<bool>) -> (b: bool)
    ensures
        b == stored.unwrap_or(false),
{
    match stored {
        Some(b) => b,
        None => false,
    }
}

} // verus!
