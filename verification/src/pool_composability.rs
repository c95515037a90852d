//! Lending-pool composability: external pools that internal pools deposit
//! into, the yield they report, portfolio allocations, and aggregate TVL
//! and APY figures that leave out pools gone stale (no report within the
//! freshness window).
use vstd::prelude::*;
use crate::arith::{sat_add, saturating_add_i128};
use crate::errors::ContractError;
use crate::types::Address;

verus! {

/// Freshness window used when none is configured: seven days.
pub const DEFAULT_FRESHNESS_WINDOW_SECS: u64 = 604_800;

/// An external pool that internal pools can deposit into.
pub struct ExternalPoolInterface {
    pub pool_id: u64,
    pub protocol_name: String,
    pub pool_contract: Address,
    pub strategy_type: String,
    pub is_active: bool,
    pub registered_at: u64,
    /// When the pool last reported (a yield earning or a snapshot).
    pub last_updated: u64,
}

/// A deposit of an internal pool into an external one.
#[derive(Clone, Copy, Debug, PartialEq, Eq, Structural)]
pub struct ExternalPoolDeposit {
    pub deposit_id: u64,
    pub internal_pool_id: u64,
    pub external_pool_id: u64,
    pub amount: i128,
    pub deposit_time: u64,
    pub yield_earned: i128,
}

/// Yield reported on a deposit.
#[derive(Clone, Copy, Debug, PartialEq, Eq, Structural)]
pub struct YieldEarning {
    pub deposit_id: u64,
    pub amount: i128,
    pub earned_at: u64,
    pub apy_bps: u32,
}

/// One allocation of a portfolio.
pub struct PoolAllocation {
    pub pool_id: u64,
    pub amount: i128,
    pub allocation_percentage_bps: u32,
    pub pool_type: String,
}

/// A portfolio snapshot.
pub struct PortfolioSnapshot {
    pub timestamp: u64,
    pub total_value: i128,
    pub allocations: Vec<PoolAllocation>,
}

/// Set the freshness window; zero is refused.
pub fn set_freshness_window(seconds: u64) -> (r: Result<u64, ContractError>)
    ensures
        seconds == 0 ==> r == Err::<u64, ContractError>(ContractError::InvalidAmount),
        seconds > 0 ==> r == Ok::<u64, ContractError>(seconds),
{
    if seconds == 0 {
        Err(ContractError::InvalidAmount)
    } else {
        Ok(seconds)
    }
}

/// A pool is stale when more than `window` seconds passed since it last
/// reported.
pub open spec fn stale(last_updated: u64, now: u64, window: u64) -> bool {
    now > last_updated && now - last_updated > window
}

/// Whether a pool that last reported at `last_updated` is stale at `now`.
pub fn is_pool_stale(last_updated: u64, now: u64, window: u64) -> (b: bool)
    ensures
        b == stale(last_updated, now, window),
{
    now.saturating_sub(last_updated) > window
}

/// Share of `amount` in `total`, in basis points, as the 32-bit value the
/// division leaves.
pub open spec fn allocation_bps(amount: i128, total: i128) -> u32 {
    (((amount as u128) * 10_000) / (total as u128 as int)) as u32
}

/// Computes the share of `amount` in `total` (positive) in basis points.
pub fn calculate_allocation_bps(amount: i128, total: i128) -> (bps: u32)
    requires
        0 <= amount,
        amount * 10_000 <= u128::MAX,
        total > 0,
    ensures
        bps == allocation_bps(amount, total),
{
    let wide = (amount as u128) * 10_000 / (total as u128);
    #[verifier::truncate]
    let bps = wide as u32;
    bps
}

/// Register an external pool with the next pool id (1 when none was
/// registered) at `now`; an empty protocol name or strategy is refused.
/// Returns the pool and the next id.
pub fn register_external_pool(
    protocol_name: String,
    pool_contract: Address,
    strategy_type: String,
    now: u64,
    next_id: Option<u64>,
) -> (r: Result<(ExternalPoolInterface, u64), ContractError>)
    requires
        next_id.unwrap_or(1) < u64::MAX,
    ensures
        protocol_name@.len() == 0 || strategy_type@.len() == 0 ==> r is Err && r->Err_0 == ContractError::InvalidAmount,
        protocol_name@.len() > 0 && strategy_type@.len() > 0 ==> r is Ok && {
            let (p, next) = r->Ok_0;
            &&& p.pool_id == next_id.unwrap_or(1)
            &&& p.protocol_name@ == protocol_name@
            &&& p.pool_contract == pool_contract
            &&& p.strategy_type@ == strategy_type@
            &&& p.is_active
            &&& p.registered_at == now
            &&& p.last_updated == now
            &&& next == next_id.unwrap_or(1) + 1
        },
{
    if protocol_name.as_str().unicode_len() == 0 || strategy_type.as_str().unicode_len() == 0 {
        return Err(ContractError::InvalidAmount);
    }
    let id = match next_id {
        Some(i) => i,
        None => 1,
    };
    Ok((
        ExternalPoolInterface {
            pool_id: id,
            protocol_name,
            pool_contract,
            strategy_type,
            is_active: true,
            registered_at: now,
            last_updated: now,
        },
        id + 1,
    ))
}

/// Record a deposit of `amount` (positive) from an internal pool into an
/// external one, with the next deposit id (1 when none was made) at `now`.
/// Returns the deposit and the next id.
pub fn deposit_to_external_pool(
    internal_pool_id: u64,
    external_pool_id: u64,
    amount: i128,
    now: u64,
    next_id: Option<u64>,
) -> (r: Result<(ExternalPoolDeposit, u64), ContractError>)
    requires
        next_id.unwrap_or(1) < u64::MAX,
    ensures
        amount <= 0 ==> r == Err::<(ExternalPoolDeposit, u64), ContractError>(ContractError::InvalidAmount),
        amount > 0 ==> r == Ok::<(ExternalPoolDeposit, u64), ContractError>(
            (
                ExternalPoolDeposit {
                    deposit_id: next_id.unwrap_or(1),
                    internal_pool_id,
                    external_pool_id,
                    amount,
                    deposit_time: now,
                    yield_earned: 0,
                },
                (next_id.unwrap_or(1) + 1) as u64,
            ),
        ),
{
    if amount <= 0 {
        return Err(ContractError::InvalidAmount);
    }
    let id = match next_id {
        Some(i) => i,
        None => 1,
    };
    Ok((
        ExternalPoolDeposit { deposit_id: id, internal_pool_id, external_pool_id, amount, deposit_time: now, yield_earned: 0 },
        id + 1,
    ))
}

/// Position of the first pool with id `pool_id`.
pub open spec fn pool_index(pools: Seq<ExternalPoolInterface>, pool_id: u64) -> Option<int> {
    if exists|i: int| 0 <= i < pools.len() && #[trigger] pools[i].pool_id == pool_id {
        Some(
            choose|i: int|
                0 <= i < pools.len() && #[trigger] pools[i].pool_id == pool_id && forall|j: int|
                    0 <= j < i ==> pools[j].pool_id != pool_id,
        )
    } else {
        None
    }
}

/// Position of the first deposit with id `deposit_id`.
pub open spec fn deposit_index(deposits: Seq<ExternalPoolDeposit>, deposit_id: u64) -> Option<int> {
    if exists|i: int| 0 <= i < deposits.len() && #[trigger] deposits[i].deposit_id == deposit_id {
        Some(
            choose|i: int|
                0 <= i < deposits.len() && #[trigger] deposits[i].deposit_id == deposit_id && forall|j: int|
                    0 <= j < i ==> deposits[j].deposit_id != deposit_id,
        )
    } else {
        None
    }
}

fn find_pool(pools: &Vec<ExternalPoolInterface>, pool_id: u64) -> (r: Option<usize>)
    ensures
        r is Some <==> pool_index(pools@, pool_id) is Some,
        r matches Some(i) ==> i < pools@.len() && pool_index(pools@, pool_id) == Some(i as int),
{
    let mut i: usize = 0;
    while i < pools.len()
        invariant
            i <= pools@.len(),
            forall|j: int| 0 <= j < i ==> #[trigger] pools@[j].pool_id != pool_id,
        decreases pools@.len() - i,
    {
        if pools[i].pool_id == pool_id {
            assert(pool_index(pools@, pool_id) == Some(i as int)) by {
                assert(pools@[i as int].pool_id == pool_id && forall|j: int| 0 <= j < i ==> pools@[j].pool_id != pool_id);
                let k = choose|k: int|
                    0 <= k < pools@.len() && #[trigger] pools@[k].pool_id == pool_id && forall|j: int|
                        0 <= j < k ==> pools@[j].pool_id != pool_id;
                if k > i {
                    assert(pools@[i as int].pool_id == pool_id);
                }
            }
            return Some(i);
        }
        i = i + 1;
    }
    None
}

/// Marks the first pool with id `pool_id` as having reported at `now`.
pub fn touch_pool_last_updated(pools: &mut Vec<ExternalPoolInterface>, pool_id: u64, now: u64)
    ensures
        match pool_index(old(pools)@, pool_id) {
            Some(i) => final(pools)@ == old(pools)@.update(i, ExternalPoolInterface { last_updated: now, ..old(pools)@[i] }),
            None => final(pools)@ == old(pools)@,
        },
{
    match find_pool(pools, pool_id) {
        Some(i) => {
            let ghost before = pools@;
            let mut p = pools.remove(i);
            p.last_updated = now;
            pools.insert(i, p);
            assert(pools@ =~= before.update(i as int, ExternalPoolInterface { last_updated: now, ..before[i as int] }));
        },
        None => {},
    }
}

/// Record `amount` (positive) of yield at `apy_bps` (at most 10_000) on
/// deposit `deposit_id` at `now`: the first deposit with that id earns it
/// (saturating), and its external pool counts as having reported.
pub fn record_yield_earning(
    deposit_id: u64,
    amount: i128,
    apy_bps: u32,
    now: u64,
    deposits: &mut Vec<ExternalPoolDeposit>,
    pools: &mut Vec<ExternalPoolInterface>,
) -> (r: Result<YieldEarning, ContractError>)
    ensures
        amount <= 0 || apy_bps > 10_000 ==> r == Err::<YieldEarning, ContractError>(ContractError::InvalidAmount)
            && final(deposits)@ == old(deposits)@ && final(pools)@ == old(pools)@,
        amount > 0 && apy_bps <= 10_000 ==> r == Ok::<YieldEarning, ContractError>(
            YieldEarning { deposit_id, amount, earned_at: now, apy_bps },
        ) && match deposit_index(old(deposits)@, deposit_id) {
            Some(i) => {
                let d = old(deposits)@[i];
                &&& final(deposits)@ == old(deposits)@.update(
                    i,
                    ExternalPoolDeposit { yield_earned: sat_add(d.yield_earned as int, amount as int) as i128, ..d },
                )
                &&& match pool_index(old(pools)@, d.external_pool_id) {
                    Some(k) => final(pools)@ == old(pools)@.update(
                        k,
                        ExternalPoolInterface { last_updated: now, ..old(pools)@[k] },
                    ),
                    None => final(pools)@ == old(pools)@,
                }
            },
            None => final(deposits)@ == old(deposits)@ && final(pools)@ == old(pools)@,
        },
{
    if amount <= 0 || apy_bps > 10_000 {
        return Err(ContractError::InvalidAmount);
    }
    let mut i: usize = 0;
    while i < deposits.len()
        invariant
            i <= deposits@.len(),
            amount > 0 && apy_bps <= 10_000,
            deposits@ == old(deposits)@,
            pools@ == old(pools)@,
            forall|j: int| 0 <= j < i ==> #[trigger] deposits@[j].deposit_id != deposit_id,
        decreases deposits@.len() - i,
    {
        if deposits[i].deposit_id == deposit_id {
            assert(deposit_index(deposits@, deposit_id) == Some(i as int)) by {
                assert(deposits@[i as int].deposit_id == deposit_id && forall|j: int| 0 <= j < i ==> deposits@[j].deposit_id
                    != deposit_id);
                let k = choose|k: int|
                    0 <= k < deposits@.len() && #[trigger] deposits@[k].deposit_id == deposit_id && forall|j: int|
                        0 <= j < k ==> deposits@[j].deposit_id != deposit_id;
                if k > i {
                    assert(deposits@[i as int].deposit_id == deposit_id);
                }
            }
            let d = deposits[i];
            let updated = ExternalPoolDeposit { yield_earned: saturating_add_i128(d.yield_earned, amount), ..d };
            deposits.set(i, updated);
            touch_pool_last_updated(pools, d.external_pool_id, now);
            return Ok(YieldEarning { deposit_id, amount, earned_at: now, apy_bps });
        }
        i = i + 1;
    }
    Ok(YieldEarning { deposit_id, amount, earned_at: now, apy_bps })
}

/// Saturating sum of the yield earned by the deposits of `internal_pool_id`.
pub open spec fn yield_of(deposits: Seq<ExternalPoolDeposit>, internal_pool_id: u64) -> int
    decreases deposits.len(),
{
    if deposits.len() == 0 {
        0
    } else {
        let rest = yield_of(deposits.drop_last(), internal_pool_id);
        if deposits.last().internal_pool_id == internal_pool_id {
            sat_add(rest, deposits.last().yield_earned as int)
        } else {
            rest
        }
    }
}

/// The yield earned by an internal pool's deposits, summed with
/// saturation; claiming all yields reports the same figure.
pub fn get_aggregated_yield(deposits: &Vec<ExternalPoolDeposit>, internal_pool_id: u64) -> (total: i128)
    ensures
        total == yield_of(deposits@, internal_pool_id),
{
    let mut total: i128 = 0;
    let mut i: usize = 0;
    while i < deposits.len()
        invariant
            i <= deposits@.len(),
            total == yield_of(deposits@.subrange(0, i as int), internal_pool_id),
        decreases deposits@.len() - i,
    {
        assert(deposits@.subrange(0, i + 1).drop_last() == deposits@.subrange(0, i as int));
        assert(deposits@.subrange(0, i + 1).last() == deposits@[i as int]);
        if deposits[i].internal_pool_id == internal_pool_id {
            total = saturating_add_i128(total, deposits[i].yield_earned);
        }
        i = i + 1;
    }
    assert(deposits@.subrange(0, deposits@.len() as int) == deposits@);
    total
}

/// Claim all yields of an internal pool: the aggregated yield.
pub fn claim_all_yields(deposits: &Vec<ExternalPoolDeposit>, internal_pool_id: u64) -> (r: Result<i128, ContractError>)
    ensures
        r == Ok::<i128, ContractError>(yield_of(deposits@, internal_pool_id) as i128),
{
    Ok(get_aggregated_yield(deposits, internal_pool_id))
}

/// The deposits of `internal_pool_id`, in order.
pub open spec fn deposits_of(deposits: Seq<ExternalPoolDeposit>, internal_pool_id: u64) -> Seq<ExternalPoolDeposit> {
    deposits.filter(|d: ExternalPoolDeposit| d.internal_pool_id == internal_pool_id)
}

/// An allocation as `(pool, amount, share)`.
pub open spec fn allocation_view(a: PoolAllocation) -> (u64, i128, u32) {
    (a.pool_id, a.amount, a.allocation_percentage_bps)
}

/// The allocations of the deposits against `total`.
pub open spec fn allocations_for(ds: Seq<ExternalPoolDeposit>, total: i128) -> Seq<(u64, i128, u32)> {
    ds.map_values(|d: ExternalPoolDeposit| (d.external_pool_id, d.amount, allocation_bps(d.amount, total)))
}

/// Whether every deposit of the pool can be weighed in basis points.
pub open spec fn amounts_weighable(deposits: Seq<ExternalPoolDeposit>, internal_pool_id: u64) -> bool {
    forall|i: int|
        0 <= i < deposits.len() && #[trigger] deposits[i].internal_pool_id == internal_pool_id ==> 0 <= deposits[i].amount
            && deposits[i].amount * 10_000 <= u128::MAX
}

fn allocations_of(deposits: &Vec<ExternalPoolDeposit>, internal_pool_id: u64, total: i128) -> (r: Vec<PoolAllocation>)
    requires
        amounts_weighable(deposits@, internal_pool_id),
        total > 0,
    ensures
        r@.map_values(|a: PoolAllocation| allocation_view(a)) == allocations_for(
            deposits_of(deposits@, internal_pool_id),
            total,
        ),
        forall|i: int| 0 <= i < r@.len() ==> (#[trigger] r@[i]).pool_type@ == "external"@,
{
    let mut out: Vec<PoolAllocation> = Vec::new();
    let mut i: usize = 0;
    while i < deposits.len()
        invariant
            i <= deposits@.len(),
            total > 0,
            amounts_weighable(deposits@, internal_pool_id),
            out@.map_values(|a: PoolAllocation| allocation_view(a)) == allocations_for(
                deposits_of(deposits@.subrange(0, i as int), internal_pool_id),
                total,
            ),
            forall|k: int| 0 <= k < out@.len() ==> (#[trigger] out@[k]).pool_type@ == "external"@,
        decreases deposits@.len() - i,
    {
        let ghost prefix = deposits@.subrange(0, i as int);
        assert(deposits@.subrange(0, i + 1) == prefix.push(deposits@[i as int]));
        reveal(Seq::filter);
        assert(deposits@.subrange(0, i + 1).drop_last() == prefix);
        let d = deposits[i];
        if d.internal_pool_id == internal_pool_id {
            assert(deposits@[i as int].internal_pool_id == internal_pool_id);
            let bps = calculate_allocation_bps(d.amount, total);
            let ghost before = out@;
            out.push(
                PoolAllocation {
                    pool_id: d.external_pool_id,
                    amount: d.amount,
                    allocation_percentage_bps: bps,
                    pool_type: String::from_str("external"),
                },
            );
            assert(out@.map_values(|a: PoolAllocation| allocation_view(a)) =~= before.map_values(
                |a: PoolAllocation| allocation_view(a),
            ).push((d.external_pool_id, d.amount, bps)));
            assert(deposits_of(deposits@.subrange(0, i + 1), internal_pool_id) == deposits_of(prefix, internal_pool_id).push(d));
            assert(allocations_for(deposits_of(deposits@.subrange(0, i + 1), internal_pool_id), total) =~= allocations_for(
                deposits_of(prefix, internal_pool_id),
                total,
            ).push((d.external_pool_id, d.amount, bps)));
        } else {
            assert(deposits_of(deposits@.subrange(0, i + 1), internal_pool_id) == deposits_of(prefix, internal_pool_id));
        }
        i = i + 1;
    }
    assert(deposits@.subrange(0, deposits@.len() as int) == deposits@);
    out
}

/// Snapshot an internal pool's portfolio against `total_value` (positive)
/// at `now`: one external allocation per deposit of the pool, in order,
/// its share of the total in basis points. The snapshot returned is to be
/// kept; each external pool a deposit touches counts as having reported.
pub fn create_portfolio_snapshot(
    internal_pool_id: u64,
    total_value: i128,
    now: u64,
    deposits: &Vec<ExternalPoolDeposit>,
) -> (r: Result<PortfolioSnapshot, ContractError>)
    requires
        total_value > 0 ==> amounts_weighable(deposits@, internal_pool_id),
    ensures
        total_value <= 0 ==> r is Err && r->Err_0 == ContractError::InvalidAmount,
        total_value > 0 ==> r is Ok && {
            let s = r->Ok_0;
            &&& s.timestamp == now
            &&& s.total_value == total_value
            &&& s.allocations@.map_values(|a: PoolAllocation| allocation_view(a)) == allocations_for(
                deposits_of(deposits@, internal_pool_id),
                total_value,
            )
            &&& forall|i: int| 0 <= i < s.allocations@.len() ==> (#[trigger] s.allocations@[i]).pool_type@ == "external"@
        },
{
    if total_value <= 0 {
        return Err(ContractError::InvalidAmount);
    }
    let allocations = allocations_of(deposits, internal_pool_id, total_value);
    Ok(PortfolioSnapshot { timestamp: now, total_value, allocations })
}

/// Sum of the amounts of the pool's deposits.
pub open spec fn amount_of(deposits: Seq<ExternalPoolDeposit>, internal_pool_id: u64) -> int
    decreases deposits.len(),
{
    if deposits.len() == 0 {
        0
    } else {
        amount_of(deposits.drop_last(), internal_pool_id) + if deposits.last().internal_pool_id == internal_pool_id {
            deposits.last().amount as int
        } else {
            0
        }
    }
}

/// The current allocation of an internal pool across external pools: each
/// deposit's share of the pool's total deposits (empty when that total is
/// zero).
pub fn get_portfolio_allocation(deposits: &Vec<ExternalPoolDeposit>, internal_pool_id: u64) -> (r: Vec<PoolAllocation>)
    requires
        amounts_weighable(deposits@, internal_pool_id),
        amount_of(deposits@, internal_pool_id) <= i128::MAX,
    ensures
        amount_of(deposits@, internal_pool_id) == 0 ==> r@.len() == 0,
        amount_of(deposits@, internal_pool_id) > 0 ==> r@.map_values(|a: PoolAllocation| allocation_view(a))
            == allocations_for(deposits_of(deposits@, internal_pool_id), amount_of(deposits@, internal_pool_id) as i128),
{
    let mut total: i128 = 0;
    let mut i: usize = 0;
    proof {
        lemma_amount_prefix(deposits@, internal_pool_id, 0);
    }
    while i < deposits.len()
        invariant
            i <= deposits@.len(),
            amounts_weighable(deposits@, internal_pool_id),
            amount_of(deposits@, internal_pool_id) <= i128::MAX,
            total == amount_of(deposits@.subrange(0, i as int), internal_pool_id),
            0 <= total <= amount_of(deposits@, internal_pool_id),
        decreases deposits@.len() - i,
    {
        assert(deposits@.subrange(0, i + 1).drop_last() == deposits@.subrange(0, i as int));
        assert(deposits@.subrange(0, i + 1).last() == deposits@[i as int]);
        proof {
            lemma_amount_prefix(deposits@, internal_pool_id, i + 1);
        }
        if deposits[i].internal_pool_id == internal_pool_id {
            assert(deposits@[i as int].internal_pool_id == internal_pool_id);
            total = total + deposits[i].amount;
        }
        i = i + 1;
    }
    assert(deposits@.subrange(0, deposits@.len() as int) == deposits@);
    if total == 0 {
        return Vec::new();
    }
    allocations_of(deposits, internal_pool_id, total)
}

proof fn lemma_amount_prefix(deposits: Seq<ExternalPoolDeposit>, internal_pool_id: u64, k: int)
    requires
        amounts_weighable(deposits, internal_pool_id),
        0 <= k <= deposits.len(),
    ensures
        0 <= amount_of(deposits.subrange(0, k), internal_pool_id) <= amount_of(deposits, internal_pool_id),
    decreases deposits.len() - k,
{
    if k < deposits.len() {
        lemma_amount_prefix(deposits, internal_pool_id, k + 1);
        assert(deposits.subrange(0, k + 1).drop_last() == deposits.subrange(0, k));
        assert(deposits.subrange(0, k + 1).last() == deposits[k]);
    } else {
        assert(deposits.subrange(0, k) == deposits);
    }
    lemma_amount_nonneg(deposits.subrange(0, k), internal_pool_id);
}

proof fn lemma_amount_nonneg(deposits: Seq<ExternalPoolDeposit>, internal_pool_id: u64)
    requires
        amounts_weighable(deposits, internal_pool_id),
    ensures
        0 <= amount_of(deposits, internal_pool_id),
    decreases deposits.len(),
{
    if deposits.len() > 0 {
        let rest = deposits.drop_last();
        assert(amounts_weighable(rest, internal_pool_id)) by {
            assert forall|i: int| 0 <= i < rest.len() && #[trigger] rest[i].internal_pool_id == internal_pool_id implies 0
                <= rest[i].amount && rest[i].amount * 10_000 <= u128::MAX by {
                assert(rest[i] == deposits[i]);
            }
        }
        lemma_amount_nonneg(rest, internal_pool_id);
        if deposits.last().internal_pool_id == internal_pool_id {
            assert(deposits[deposits.len() - 1].internal_pool_id == internal_pool_id);
        }
    }
}

/// Whether the pool with id `pool_id` is stale; a pool that is not
/// registered counts as stale.
pub open spec fn stale_by_id(pools: Seq<ExternalPoolInterface>, pool_id: u64, now: u64, window: u64) -> bool {
    match pool_index(pools, pool_id) {
        Some(i) => stale(pools[i].last_updated, now, window),
        None => true,
    }
}

/// Whether the external pool `pool_id` is stale at `now`.
pub fn pool_is_stale_by_id(pools: &Vec<ExternalPoolInterface>, pool_id: u64, now: u64, window: u64) -> (b: bool)
    ensures
        b == stale_by_id(pools@, pool_id, now, window),
{
    match find_pool(pools, pool_id) {
        Some(i) => is_pool_stale(pools[i].last_updated, now, window),
        None => true,
    }
}

/// Saturating sum of the amounts of deposits in pools that are not stale.
pub open spec fn fresh_tvl(
    deposits: Seq<ExternalPoolDeposit>,
    pools: Seq<ExternalPoolInterface>,
    now: u64,
    window: u64,
) -> int
    decreases deposits.len(),
{
    if deposits.len() == 0 {
        0
    } else {
        let rest = fresh_tvl(deposits.drop_last(), pools, now, window);
        if stale_by_id(pools, deposits.last().external_pool_id, now, window) {
            rest
        } else {
            sat_add(rest, deposits.last().amount as int)
        }
    }
}

/// Total value locked in external pools, leaving out deposits in pools
/// gone stale.
pub fn get_total_external_tvl(
    deposits: &Vec<ExternalPoolDeposit>,
    pools: &Vec<ExternalPoolInterface>,
    now: u64,
    window: u64,
) -> (total: i128)
    ensures
        total == fresh_tvl(deposits@, pools@, now, window),
{
    let mut total: i128 = 0;
    let mut i: usize = 0;
    while i < deposits.len()
        invariant
            i <= deposits@.len(),
            total == fresh_tvl(deposits@.subrange(0, i as int), pools@, now, window),
        decreases deposits@.len() - i,
    {
        assert(deposits@.subrange(0, i + 1).drop_last() == deposits@.subrange(0, i as int));
        assert(deposits@.subrange(0, i + 1).last() == deposits@[i as int]);
        if !pool_is_stale_by_id(pools, deposits[i].external_pool_id, now, window) {
            total = saturating_add_i128(total, deposits[i].amount);
        }
        i = i + 1;
    }
    assert(deposits@.subrange(0, deposits@.len() as int) == deposits@);
    total
}

/// Mark the first pool with id `pool_id` inactive; refused when there is
/// none.
pub fn deactivate_pool(pools: &mut Vec<ExternalPoolInterface>, pool_id: u64) -> (r: Result<(), ContractError>)
    ensures
        match pool_index(old(pools)@, pool_id) {
            Some(i) => r is Ok && final(pools)@ == old(pools)@.update(
                i,
                ExternalPoolInterface { is_active: false, ..old(pools)@[i] },
            ),
            None => r == Err::<(), ContractError>(ContractError::NotFound) && final(pools)@ == old(pools)@,
        },
{
    match find_pool(pools, pool_id) {
        Some(i) => {
            let ghost before = pools@;
            let mut p = pools.remove(i);
            p.is_active = false;
            pools.insert(i, p);
            assert(pools@ =~= before.update(i as int, ExternalPoolInterface { is_active: false, ..before[i as int] }));
            Ok(())
        },
        None => Err(ContractError::NotFound),
    }
}

fn copy_pool(p: &ExternalPoolInterface) -> (r: ExternalPoolInterface)
    ensures
        r == *p,
{
    ExternalPoolInterface {
        pool_id: p.pool_id,
        protocol_name: p.protocol_name.clone(),
        pool_contract: p.pool_contract,
        strategy_type: p.strategy_type.clone(),
        is_active: p.is_active,
        registered_at: p.registered_at,
        last_updated: p.last_updated,
    }
}

/// The first pool with id `pool_id`; refused when there is none.
pub fn get_external_pool(pools: &Vec<ExternalPoolInterface>, pool_id: u64) -> (r: Result<ExternalPoolInterface, ContractError>)
    ensures
        match pool_index(pools@, pool_id) {
            Some(i) => r == Ok::<ExternalPoolInterface, ContractError>(pools@[i]),
            None => r == Err::<ExternalPoolInterface, ContractError>(ContractError::NotFound),
        },
{
    match find_pool(pools, pool_id) {
        Some(i) => Ok(copy_pool(&pools[i])),
        None => Err(ContractError::NotFound),
    }
}

/// The active pools, in order, each with whether it is stale at `now`.
pub open spec fn active_pools(pools: Seq<ExternalPoolInterface>, now: u64, window: u64) -> Seq<(ExternalPoolInterface, bool)>
    decreases pools.len(),
{
    if pools.len() == 0 {
        Seq::empty()
    } else {
        let rest = active_pools(pools.drop_last(), now, window);
        let p = pools.last();
        if p.is_active { rest.push((p, stale(p.last_updated, now, window))) } else { rest }
    }
}

/// Every active external pool, flagged with whether it has gone stale.
pub fn get_active_pools(pools: &Vec<ExternalPoolInterface>, now: u64, window: u64) -> (r: Vec<(ExternalPoolInterface, bool)>)
    ensures
        r@ == active_pools(pools@, now, window),
{
    let mut out: Vec<(ExternalPoolInterface, bool)> = Vec::new();
    let mut i: usize = 0;
    while i < pools.len()
        invariant
            i <= pools@.len(),
            out@ == active_pools(pools@.subrange(0, i as int), now, window),
        decreases pools@.len() - i,
    {
        assert(pools@.subrange(0, i + 1).drop_last() == pools@.subrange(0, i as int));
        assert(pools@.subrange(0, i + 1).last() == pools@[i as int]);
        if pools[i].is_active {
            let st = is_pool_stale(pools[i].last_updated, now, window);
            out.push((copy_pool(&pools[i]), st));
        }
        i = i + 1;
    }
    assert(pools@.subrange(0, pools@.len() as int) == pools@);
    out
}

/// A deposit of `internal_pool_id` whose external pool is not stale.
pub open spec fn fresh_deposit(
    d: ExternalPoolDeposit,
    internal_pool_id: u64,
    pools: Seq<ExternalPoolInterface>,
    now: u64,
    window: u64,
) -> bool {
    d.internal_pool_id == internal_pool_id && !stale_by_id(pools, d.external_pool_id, now, window)
}

/// Saturating sum of the amounts of the pool's fresh deposits.
pub open spec fn fresh_amount(
    ds: Seq<ExternalPoolDeposit>,
    internal_pool_id: u64,
    pools: Seq<ExternalPoolInterface>,
    now: u64,
    window: u64,
) -> int
    decreases ds.len(),
{
    if ds.len() == 0 {
        0
    } else {
        let rest = fresh_amount(ds.drop_last(), internal_pool_id, pools, now, window);
        if fresh_deposit(ds.last(), internal_pool_id, pools, now, window) {
            sat_add(rest, ds.last().amount as int)
        } else {
            rest
        }
    }
}

/// A deposit's weight in basis points of the total, as the 64-bit value
/// the division leaves.
pub open spec fn deposit_weight(amount: i128, total: i128) -> u64 {
    (((amount as u128) * 10_000) / (total as u128 as int)) as u64
}

/// Sum over the earnings of deposit `deposit_id` of their APY scaled by
/// `weight` basis points.
pub open spec fn earning_sum(es: Seq<YieldEarning>, deposit_id: u64, weight: u64) -> int
    decreases es.len(),
{
    if es.len() == 0 {
        0
    } else {
        earning_sum(es.drop_last(), deposit_id, weight) + if es.last().deposit_id == deposit_id {
            (es.last().apy_bps * weight) / 10_000
        } else {
            0
        }
    }
}

/// Sum over the fresh deposits of their weighted earnings.
pub open spec fn weighted_apy_sum(
    ds: Seq<ExternalPoolDeposit>,
    es: Seq<YieldEarning>,
    internal_pool_id: u64,
    pools: Seq<ExternalPoolInterface>,
    now: u64,
    window: u64,
    total: i128,
) -> int
    decreases ds.len(),
{
    if ds.len() == 0 {
        0
    } else {
        let d = ds.last();
        weighted_apy_sum(ds.drop_last(), es, internal_pool_id, pools, now, window, total) + if fresh_deposit(
            d,
            internal_pool_id,
            pools,
            now,
            window,
        ) {
            earning_sum(es, d.deposit_id, deposit_weight(d.amount, total))
        } else {
            0
        }
    }
}

/// Whether the weighted APY arithmetic stays within its types: the fresh
/// deposits can be weighed, and each scaled APY fits in 64 bits.
pub open spec fn apy_fits(
    ds: Seq<ExternalPoolDeposit>,
    es: Seq<YieldEarning>,
    internal_pool_id: u64,
    pools: Seq<ExternalPoolInterface>,
    now: u64,
    window: u64,
) -> bool {
    let total = fresh_amount(ds, internal_pool_id, pools, now, window);
    forall|i: int|
        0 <= i < ds.len() && #[trigger] fresh_deposit(ds[i], internal_pool_id, pools, now, window) ==> {
            &&& 0 <= ds[i].amount
            &&& ds[i].amount * 10_000 <= u128::MAX
            &&& forall|k: int|
                0 <= k < es.len() && #[trigger] es[k].deposit_id == ds[i].deposit_id ==> es[k].apy_bps
                    * deposit_weight(ds[i].amount, total as i128) <= u64::MAX
        }
}

/// The APY of an internal pool's fresh deposits, each weighted by its
/// share of their total: refused when that total is not positive. The sum
/// saturates at the largest `u64` and is reported as its low 32 bits.
pub fn calculate_weighted_avg_apy(
    earnings: &Vec<YieldEarning>,
    deposits: &Vec<ExternalPoolDeposit>,
    pools: &Vec<ExternalPoolInterface>,
    internal_pool_id: u64,
    now: u64,
    window: u64,
) -> (r: Result<u32, ContractError>)
    requires
        apy_fits(deposits@, earnings@, internal_pool_id, pools@, now, window),
    ensures
        ({
            let total = fresh_amount(deposits@, internal_pool_id, pools@, now, window);
            let sum = weighted_apy_sum(deposits@, earnings@, internal_pool_id, pools@, now, window, total as i128);
            &&& total <= 0 ==> r == Err::<u32, ContractError>(ContractError::NotFound)
            &&& total > 0 ==> r == Ok::<u32, ContractError>((if sum > u64::MAX { u64::MAX as int } else { sum }) as u32)
        }),
{
    let mut total: i128 = 0;
    let mut i: usize = 0;
    while i < deposits.len()
        invariant
            i <= deposits@.len(),
            total == fresh_amount(deposits@.subrange(0, i as int), internal_pool_id, pools@, now, window),
        decreases deposits@.len() - i,
    {
        assert(deposits@.subrange(0, i + 1).drop_last() == deposits@.subrange(0, i as int));
        assert(deposits@.subrange(0, i + 1).last() == deposits@[i as int]);
        if deposits[i].internal_pool_id == internal_pool_id && !pool_is_stale_by_id(
            pools,
            deposits[i].external_pool_id,
            now,
            window,
        ) {
            total = saturating_add_i128(total, deposits[i].amount);
        }
        i = i + 1;
    }
    assert(deposits@.subrange(0, deposits@.len() as int) == deposits@);
    if total <= 0 {
        return Err(ContractError::NotFound);
    }
    let ghost gtotal = total;
    let mut weighted: u64 = 0;
    let mut d: usize = 0;
    while d < deposits.len()
        invariant
            d <= deposits@.len(),
            total > 0,
            total == gtotal,
            gtotal == fresh_amount(deposits@, internal_pool_id, pools@, now, window),
            apy_fits(deposits@, earnings@, internal_pool_id, pools@, now, window),
            weighted == (if weighted_apy_sum(deposits@.subrange(0, d as int), earnings@, internal_pool_id, pools@, now, window, total)
                > u64::MAX { u64::MAX as int } else {
                weighted_apy_sum(deposits@.subrange(0, d as int), earnings@, internal_pool_id, pools@, now, window, total)
            }),
            weighted_apy_sum(deposits@.subrange(0, d as int), earnings@, internal_pool_id, pools@, now, window, total) >= 0,
        decreases deposits@.len() - d,
    {
        assert(deposits@.subrange(0, d + 1).drop_last() == deposits@.subrange(0, d as int));
        assert(deposits@.subrange(0, d + 1).last() == deposits@[d as int]);
        let dep = deposits[d];
        if dep.internal_pool_id == internal_pool_id && !pool_is_stale_by_id(pools, dep.external_pool_id, now, window) {
            assert(fresh_deposit(deposits@[d as int], internal_pool_id, pools@, now, window));
            let wide = (dep.amount as u128) * 10_000 / (total as u128);
            #[verifier::truncate]
            let weight = wide as u64;
            let ghost base = weighted_apy_sum(deposits@.subrange(0, d as int), earnings@, internal_pool_id, pools@, now, window, total);
            let mut k: usize = 0;
            while k < earnings.len()
                invariant
                    k <= earnings@.len(),
                    weight == deposit_weight(dep.amount, total),
                    base >= 0,
                    dep == deposits@[d as int],
                    forall|j: int|
                        0 <= j < earnings@.len() && #[trigger] earnings@[j].deposit_id == dep.deposit_id ==> earnings@[j].apy_bps
                            * weight <= u64::MAX,
                    earning_sum(earnings@.subrange(0, k as int), dep.deposit_id, weight) >= 0,
                    weighted == (if base + earning_sum(earnings@.subrange(0, k as int), dep.deposit_id, weight) > u64::MAX {
                        u64::MAX as int
                    } else {
                        base + earning_sum(earnings@.subrange(0, k as int), dep.deposit_id, weight)
                    }),
                decreases earnings@.len() - k,
            {
                assert(earnings@.subrange(0, k + 1).drop_last() == earnings@.subrange(0, k as int));
                assert(earnings@.subrange(0, k + 1).last() == earnings@[k as int]);
                if earnings[k].deposit_id == dep.deposit_id {
                    assert(earnings@[k as int].deposit_id == dep.deposit_id);
                    let term = (earnings[k].apy_bps as u64) * weight / 10_000;
                    weighted = weighted.saturating_add(term);
                }
                k = k + 1;
            }
            assert(earnings@.subrange(0, earnings@.len() as int) == earnings@);
        }
        d = d + 1;
    }
    assert(deposits@.subrange(0, deposits@.len() as int) == deposits@);
    #[verifier::truncate]
    let out = weighted as u32;
    Ok(out)
}

} // verus!
