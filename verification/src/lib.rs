//! Verified core of the quorum credit protocol: lending rules, vouching,
//! slashing, and the auxiliary modules (farming, mining, markets, carts,
//! priorities, tokenization, quorum slices), plus API metrics.
use vstd::prelude::*;

pub mod arith;
pub mod errors;
pub mod types;
pub mod sdk;
pub mod text;
pub mod metrics;
pub mod rbac;
pub mod loyalty;
pub mod loan_cart;
pub mod loan_priority;
pub mod prediction_market;
pub mod liquidity_farming;
pub mod multitoken_support;
pub mod proof_of_work;
pub mod merkle_tree;
pub mod lending;
pub mod defaults;
pub mod loans;
pub mod escrow;
pub mod loan_pool;
pub mod loan_ops;
pub mod gateway;
pub mod relay;
pub mod attributes;
pub mod liquidity_mining;
pub mod loan_attribution;
pub mod loan_tokenization;
pub mod pool_composability;
pub mod metadata_encryption;
pub mod recurring_payment;
pub mod quorum_slice_healing;
pub mod quorum_slice_failover;
pub mod quorum_slice_cost_optimization;
pub mod quorum_slice_rebalancing;
pub mod quorum_slice_migration;

verus! {

/// The lending contract. Its entry points that decide over loans, slashes,
/// pools and requests are associated functions of this type; the others
/// are the functions of the modules.
pub struct QuorumCreditContract;

} // verus!
