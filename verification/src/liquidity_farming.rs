//! Liquidity farming: rewards for liquidity providers.
//!
//! A farm pool pays `reward_rate` per second, shared among positions in
//! proportion to their liquidity and scaled by the pool's seasonal
//! multiplier (1000 = 1x). Rewards accrue whenever a position is touched and
//! can be claimed or compounded back into liquidity.
//!
//! Each operation takes the stored pool / position and returns the records
//! to store (`None` for a position that is to be removed).
use vstd::prelude::*;
use crate::arith::{lemma_tdiv_bounds, tdiv, sat_add, sat_sub, saturating_add_i128, saturating_sub_i128};
use crate::errors::ContractError;
use crate::types::Address;

verus! {

/// A liquidity farming pool for a token.
#[derive(Clone, Copy, Debug, PartialEq, Eq, Structural)]
pub struct LiquidityFarmPool {
    pub pool_id: u64,
    pub token: Address,
    pub total_liquidity: i128,
    pub total_rewards: i128,
    /// Rewards per second.
    pub reward_rate: i128,
    pub created_at: u64,
    pub current_season: u32,
    /// Season multiplier (1000 = 1x, 2000 = 2x, ...).
    pub season_multiplier: u32,
    pub active: bool,
}

/// A provider's stake in a farming pool.
#[derive(Clone, Copy, Debug, PartialEq, Eq, Structural)]
pub struct FarmingPosition {
    pub lp_provider: Address,
    pub pool_id: u64,
    pub liquidity_amount: i128,
    pub stake_timestamp: u64,
    pub last_claim_time: u64,
    pub pending_rewards: i128,
    pub total_rewards_claimed: i128,
}

/// Seasonal reward configuration.
#[derive(Clone, Copy, Debug, PartialEq, Eq, Structural)]
pub struct SeasonConfig {
    pub season: u32,
    pub start_time: u64,
    pub end_time: u64,
    pub reward_multiplier: u32,
    pub total_allocation: i128,
}

/// Reward earned by a position over `elapsed` seconds:
/// `reward_rate * elapsed * liquidity / total_liquidity * multiplier / 1000`.
pub open spec fn accrued(pool: LiquidityFarmPool, liquidity: i128, elapsed: int) -> int {
    if pool.total_liquidity > 0 {
        let share = tdiv(pool.reward_rate * elapsed * liquidity, pool.total_liquidity as int);
        tdiv(share * pool.season_multiplier, 1000)
    } else {
        0
    }
}

/// Seconds since the position's last claim, zero when the clock is behind.
pub open spec fn elapsed_since(position: FarmingPosition, now: u64) -> int {
    if now >= position.last_claim_time { now - position.last_claim_time } else { 0 }
}

/// Whether the reward arithmetic of `position` in `pool` at `now` stays within `i128`.
pub open spec fn accrual_fits(pool: LiquidityFarmPool, position: FarmingPosition, now: u64) -> bool {
    let elapsed = elapsed_since(position, now);
    pool.total_liquidity > 0 ==> {
        &&& i128::MIN <= pool.reward_rate * elapsed <= i128::MAX
        &&& i128::MIN <= pool.reward_rate * elapsed * position.liquidity_amount <= i128::MAX
        &&& i128::MIN <= tdiv(pool.reward_rate * elapsed * position.liquidity_amount, pool.total_liquidity as int)
            * pool.season_multiplier <= i128::MAX
    }
}

/// The position with rewards accrued up to `now`.
pub open spec fn settled(pool: LiquidityFarmPool, position: FarmingPosition, now: u64) -> FarmingPosition {
    let elapsed = elapsed_since(position, now);
    if elapsed == 0 {
        position
    } else {
        FarmingPosition {
            pending_rewards: sat_add(
                position.pending_rewards as int,
                accrued(pool, position.liquidity_amount, elapsed),
            ) as i128,
            last_claim_time: now,
            ..position
        }
    }
}

/// Accrue the position's pending rewards up to `now`.
pub fn claim_farming_rewards_internal(position: FarmingPosition, pool: &LiquidityFarmPool, now: u64) -> (p: FarmingPosition)
    requires
        accrual_fits(*pool, position, now),
    ensures
        p == settled(*pool, position, now),
{
    let elapsed = now.saturating_sub(position.last_claim_time);
    if elapsed == 0 {
        return position;
    }
    let reward = if pool.total_liquidity > 0 {
        let base_reward = pool.reward_rate * (elapsed as i128);
        let share = (base_reward * position.liquidity_amount) / pool.total_liquidity;
        (share * (pool.season_multiplier as i128)) / 1000
    } else {
        0
    };
    let mut p = position;
    p.pending_rewards = saturating_add_i128(p.pending_rewards, reward);
    p.last_claim_time = now;
    p
}

/// Create a farm pool with a positive reward rate; its id is the creation time.
pub fn create_farm_pool(token: Address, initial_reward_rate: i128, now: u64) -> (r: Result<LiquidityFarmPool, ContractError>)
    ensures
        initial_reward_rate <= 0 ==> r matches Err(ContractError::InvalidAmount),
        initial_reward_rate > 0 ==> r == Ok::<LiquidityFarmPool, ContractError>(LiquidityFarmPool {
            pool_id: now,
            token,
            total_liquidity: 0,
            total_rewards: 0,
            reward_rate: initial_reward_rate,
            created_at: now,
            current_season: 1,
            season_multiplier: 1000,
            active: true,
        }),
{
    if initial_reward_rate <= 0 {
        return Err(ContractError::InvalidAmount);
    }
    Ok(LiquidityFarmPool {
        pool_id: now,
        token,
        total_liquidity: 0,
        total_rewards: 0,
        reward_rate: initial_reward_rate,
        created_at: now,
        current_season: 1,
        season_multiplier: 1000,
        active: true,
    })
}

/// Add liquidity to an active pool. An existing position first accrues its
/// rewards, then grows; otherwise a new position starts at `now`.
pub fn add_liquidity(
    stored_pool: Option<LiquidityFarmPool>,
    existing: Option<FarmingPosition>,
    lp_provider: Address,
    pool_id: u64,
    liquidity_amount: i128,
    now: u64,
) -> (r: Result<(LiquidityFarmPool, FarmingPosition), ContractError>)
    requires
        stored_pool matches Some(pool) ==> existing matches Some(pos) ==> accrual_fits(pool, pos, now),
    ensures
        liquidity_amount <= 0 ==> r matches Err(ContractError::InvalidAmount),
        liquidity_amount > 0 && stored_pool is None ==> r matches Err(ContractError::InvalidAmount),
        liquidity_amount > 0 && stored_pool is Some && !stored_pool->0.active ==> r matches Err(
            ContractError::ContractPaused,
        ),
        liquidity_amount > 0 && stored_pool is Some && stored_pool->0.active ==> (r matches Ok(res) && {
            let pool = stored_pool->0;
            &&& res.0 == (LiquidityFarmPool {
                total_liquidity: sat_add(pool.total_liquidity as int, liquidity_amount as int) as i128,
                ..pool
            })
            &&& res.1 == match existing {
                Some(pos) => {
                    let s = settled(pool, pos, now);
                    FarmingPosition {
                        liquidity_amount: sat_add(s.liquidity_amount as int, liquidity_amount as int) as i128,
                        ..s
                    }
                },
                None => FarmingPosition {
                    lp_provider,
                    pool_id,
                    liquidity_amount,
                    stake_timestamp: now,
                    last_claim_time: now,
                    pending_rewards: 0,
                    total_rewards_claimed: 0,
                },
            }
        }),
{
    if liquidity_amount <= 0 {
        return Err(ContractError::InvalidAmount);
    }
    let mut pool = match stored_pool {
        Some(p) => p,
        None => {
            return Err(ContractError::InvalidAmount);
        },
    };
    if !pool.active {
        return Err(ContractError::ContractPaused);
    }
    let position = match existing {
        Some(pos) => {
            let mut s = claim_farming_rewards_internal(pos, &pool, now);
            s.liquidity_amount = saturating_add_i128(s.liquidity_amount, liquidity_amount);
            s
        },
        None => FarmingPosition {
            lp_provider,
            pool_id,
            liquidity_amount,
            stake_timestamp: now,
            last_claim_time: now,
            pending_rewards: 0,
            total_rewards_claimed: 0,
        },
    };
    pool.total_liquidity = saturating_add_i128(pool.total_liquidity, liquidity_amount);
    Ok((pool, position))
}

/// Remove liquidity: the position accrues its rewards, then shrinks; a
/// position left with no liquidity is removed (`None`).
pub fn remove_liquidity(
    stored_pool: Option<LiquidityFarmPool>,
    stored_position: Option<FarmingPosition>,
    amount_to_withdraw: i128,
    now: u64,
) -> (r: Result<(LiquidityFarmPool, Option<FarmingPosition>), ContractError>)
    requires
        stored_pool matches Some(pool) ==> stored_position matches Some(pos) ==> accrual_fits(pool, pos, now),
    ensures
        amount_to_withdraw <= 0 ==> r matches Err(ContractError::InvalidAmount),
        amount_to_withdraw > 0 && (stored_pool is None || stored_position is None) ==> r matches Err(
            ContractError::InvalidAmount,
        ),
        amount_to_withdraw > 0 && stored_pool is Some && stored_position is Some
            && amount_to_withdraw > stored_position->0.liquidity_amount ==> r matches Err(
            ContractError::InsufficientFunds,
        ),
        amount_to_withdraw > 0 && stored_pool is Some && stored_position is Some
            && amount_to_withdraw <= stored_position->0.liquidity_amount ==> (r matches Ok(res) && {
            let pool = stored_pool->0;
            let s = settled(pool, stored_position->0, now);
            let left = sat_sub(s.liquidity_amount as int, amount_to_withdraw as int);
            &&& res.0 == (LiquidityFarmPool {
                total_liquidity: sat_sub(pool.total_liquidity as int, amount_to_withdraw as int) as i128,
                ..pool
            })
            &&& res.1 == if left > 0 {
                Some(FarmingPosition { liquidity_amount: left as i128, ..s })
            } else {
                None
            }
        }),
{
    if amount_to_withdraw <= 0 {
        return Err(ContractError::InvalidAmount);
    }
    let mut pool = match stored_pool {
        Some(p) => p,
        None => {
            return Err(ContractError::InvalidAmount);
        },
    };
    let position = match stored_position {
        Some(p) => p,
        None => {
            return Err(ContractError::InvalidAmount);
        },
    };
    if amount_to_withdraw > position.liquidity_amount {
        return Err(ContractError::InsufficientFunds);
    }
    let mut s = claim_farming_rewards_internal(position, &pool, now);
    s.liquidity_amount = saturating_sub_i128(s.liquidity_amount, amount_to_withdraw);
    pool.total_liquidity = saturating_sub_i128(pool.total_liquidity, amount_to_withdraw);
    if s.liquidity_amount > 0 {
        Ok((pool, Some(s)))
    } else {
        Ok((pool, None))
    }
}

/// Claim accumulated rewards: the position accrues up to `now`, its pending
/// rewards are paid out and added to its claimed total.
pub fn claim_farming_rewards(
    stored_pool: Option<LiquidityFarmPool>,
    stored_position: Option<FarmingPosition>,
    now: u64,
) -> (r: Result<(FarmingPosition, i128), ContractError>)
    requires
        stored_pool matches Some(pool) ==> stored_position matches Some(pos) ==> accrual_fits(pool, pos, now),
    ensures
        (stored_pool is None || stored_position is None) ==> r matches Err(ContractError::InvalidAmount),
        stored_pool is Some && stored_position is Some ==> (r matches Ok(res) && {
            let s = settled(stored_pool->0, stored_position->0, now);
            &&& res.1 == s.pending_rewards
            &&& res.0 == (FarmingPosition {
                pending_rewards: 0,
                total_rewards_claimed: sat_add(s.total_rewards_claimed as int, s.pending_rewards as int) as i128,
                ..s
            })
        }),
{
    let pool = match stored_pool {
        Some(p) => p,
        None => {
            return Err(ContractError::InvalidAmount);
        },
    };
    let position = match stored_position {
        Some(p) => p,
        None => {
            return Err(ContractError::InvalidAmount);
        },
    };
    let mut s = claim_farming_rewards_internal(position, &pool, now);
    let claimed = s.pending_rewards;
    s.pending_rewards = 0;
    s.total_rewards_claimed = saturating_add_i128(s.total_rewards_claimed, claimed);
    Ok((s, claimed))
}

/// Compound rewards: accrued rewards (when positive) become liquidity of the
/// position and of the pool. With nothing to compound the position is only
/// accrued and nothing is stored.
pub fn compound_rewards(
    stored_pool: Option<LiquidityFarmPool>,
    stored_position: Option<FarmingPosition>,
    now: u64,
) -> (r: Result<Option<(LiquidityFarmPool, FarmingPosition)>, ContractError>)
    requires
        stored_pool matches Some(pool) ==> stored_position matches Some(pos) ==> accrual_fits(pool, pos, now),
    ensures
        (stored_pool is None || stored_position is None) ==> r matches Err(ContractError::InvalidAmount),
        stored_pool is Some && stored_position is Some ==> (r matches Ok(res) && {
            let pool = stored_pool->0;
            let s = settled(pool, stored_position->0, now);
            let amount = s.pending_rewards;
            &&& amount <= 0 ==> res is None
            &&& amount > 0 ==> res == Some((
                LiquidityFarmPool { total_liquidity: sat_add(pool.total_liquidity as int, amount as int) as i128, ..pool },
                FarmingPosition {
                    liquidity_amount: sat_add(s.liquidity_amount as int, amount as int) as i128,
                    pending_rewards: 0,
                    total_rewards_claimed: sat_add(s.total_rewards_claimed as int, amount as int) as i128,
                    ..s
                },
            ))
        }),
{
    let mut pool = match stored_pool {
        Some(p) => p,
        None => {
            return Err(ContractError::InvalidAmount);
        },
    };
    let position = match stored_position {
        Some(p) => p,
        None => {
            return Err(ContractError::InvalidAmount);
        },
    };
    let mut s = claim_farming_rewards_internal(position, &pool, now);
    let amount = s.pending_rewards;
    if amount <= 0 {
        return Ok(None);
    }
    s.liquidity_amount = saturating_add_i128(s.liquidity_amount, amount);
    s.pending_rewards = 0;
    s.total_rewards_claimed = saturating_add_i128(s.total_rewards_claimed, amount);
    pool.total_liquidity = saturating_add_i128(pool.total_liquidity, amount);
    Ok(Some((pool, s)))
}

/// Set a pool's reward rate (non-negative).
pub fn set_pool_reward_rate(stored_pool: Option<LiquidityFarmPool>, new_reward_rate: i128) -> (r: Result<
    LiquidityFarmPool,
    ContractError,
>)
    ensures
        new_reward_rate < 0 ==> r matches Err(ContractError::InvalidAmount),
        new_reward_rate >= 0 && stored_pool is None ==> r matches Err(ContractError::InvalidAmount),
        new_reward_rate >= 0 && stored_pool is Some ==> r == Ok::<LiquidityFarmPool, ContractError>(
            LiquidityFarmPool { reward_rate: new_reward_rate, ..stored_pool->0 },
        ),
{
    if new_reward_rate < 0 {
        return Err(ContractError::InvalidAmount);
    }
    match stored_pool {
        Some(mut p) => {
            p.reward_rate = new_reward_rate;
            Ok(p)
        },
        None => Err(ContractError::InvalidAmount),
    }
}

/// Set a pool's seasonal multiplier (non-zero).
pub fn set_seasonal_multiplier(stored_pool: Option<LiquidityFarmPool>, multiplier: u32) -> (r: Result<
    LiquidityFarmPool,
    ContractError,
>)
    ensures
        multiplier == 0 ==> r matches Err(ContractError::InvalidAmount),
        multiplier != 0 && stored_pool is None ==> r matches Err(ContractError::InvalidAmount),
        multiplier != 0 && stored_pool is Some ==> r == Ok::<LiquidityFarmPool, ContractError>(
            LiquidityFarmPool { season_multiplier: multiplier, ..stored_pool->0 },
        ),
{
    if multiplier == 0 {
        return Err(ContractError::InvalidAmount);
    }
    match stored_pool {
        Some(mut p) => {
            p.season_multiplier = multiplier;
            Ok(p)
        },
        None => Err(ContractError::InvalidAmount),
    }
}

/// Disable a pool so that it takes no new deposits.
pub fn deactivate_farm_pool(stored_pool: Option<LiquidityFarmPool>) -> (r: Result<LiquidityFarmPool, ContractError>)
    ensures
        stored_pool is None ==> r matches Err(ContractError::InvalidAmount),
        stored_pool is Some ==> r == Ok::<LiquidityFarmPool, ContractError>(
            LiquidityFarmPool { active: false, ..stored_pool->0 },
        ),
{
    match stored_pool {
        Some(mut p) => {
            p.active = false;
            Ok(p)
        },
        None => Err(ContractError::InvalidAmount),
    }
}

/// Reward the non-claiming query reports for `elapsed` seconds: like
/// `accrued`, but computed for any non-zero total liquidity.
pub open spec fn queried(pool: LiquidityFarmPool, liquidity: i128, elapsed: int) -> int {
    if pool.total_liquidity != 0 && elapsed != 0 {
        let share = tdiv(pool.reward_rate * elapsed * liquidity, pool.total_liquidity as int);
        tdiv(share * pool.season_multiplier, 1000)
    } else {
        0
    }
}

/// Whether the non-claiming reward query stays within `i128`.
pub open spec fn pending_fits(pool: LiquidityFarmPool, position: FarmingPosition, now: u64) -> bool {
    let elapsed = elapsed_since(position, now);
    (pool.total_liquidity != 0 && elapsed != 0) ==> {
        &&& i128::MIN <= pool.reward_rate * elapsed <= i128::MAX
        &&& i128::MIN <= pool.reward_rate * elapsed * position.liquidity_amount <= i128::MAX
        &&& (pool.total_liquidity == -1 ==> pool.reward_rate * elapsed * position.liquidity_amount != i128::MIN)
        &&& i128::MIN <= tdiv(pool.reward_rate * elapsed * position.liquidity_amount, pool.total_liquidity as int)
            * pool.season_multiplier <= i128::MAX
        &&& i128::MIN <= position.pending_rewards + queried(pool, position.liquidity_amount, elapsed) <= i128::MAX
    }
}

/// Pending rewards of a position at `now`, without claiming.
pub fn calculate_pending_rewards(
    stored_pool: Option<LiquidityFarmPool>,
    stored_position: Option<FarmingPosition>,
    now: u64,
) -> (r: Result<i128, ContractError>)
    requires
        stored_pool matches Some(pool) ==> stored_position matches Some(pos) ==> pending_fits(pool, pos, now),
    ensures
        (stored_pool is None || stored_position is None) ==> r matches Err(ContractError::InvalidAmount),
        stored_pool is Some && stored_position is Some ==> r == Ok::<i128, ContractError>(
            (stored_position->0.pending_rewards + queried(
                stored_pool->0,
                stored_position->0.liquidity_amount,
                elapsed_since(stored_position->0, now),
            )) as i128,
        ),
{
    let pool = match stored_pool {
        Some(p) => p,
        None => {
            return Err(ContractError::InvalidAmount);
        },
    };
    let position = match stored_position {
        Some(p) => p,
        None => {
            return Err(ContractError::InvalidAmount);
        },
    };
    let elapsed = now.saturating_sub(position.last_claim_time);
    if elapsed == 0 || pool.total_liquidity == 0 {
        return Ok(position.pending_rewards);
    }
    let base_reward = pool.reward_rate * (elapsed as i128);
    let ghost el = elapsed_since(position, now);
    assert(elapsed as int == el);
    assert(base_reward == pool.reward_rate * el);
    let prod = base_reward * position.liquidity_amount;
    proof { lemma_tdiv_bounds(prod as int, pool.total_liquidity as int); }
    let share = prod / pool.total_liquidity;
    assert(prod as int == pool.reward_rate * el * position.liquidity_amount);
    assert(share == tdiv(pool.reward_rate * el * position.liquidity_amount, pool.total_liquidity as int));
    let accrued_now = (share * (pool.season_multiplier as i128)) / 1000;
    Ok(position.pending_rewards + accrued_now)
}

/// A claim pays out exactly the rewards accrued, and right after it a
/// second claim at the same time pays nothing.
pub proof fn lemma_claim_then_claim_pays_nothing(pool: LiquidityFarmPool, position: FarmingPosition, now: u64)
    requires
        accrual_fits(pool, position, now),
    ensures
        ({
            let s = settled(pool, position, now);
            let after = FarmingPosition { pending_rewards: 0, ..s };
            settled(pool, after, now).pending_rewards == 0
        }),
{
}

/// Rewards accrue per second in proportion to liquidity and scaled by the
/// seasonal multiplier: with a non-negative rate, liquidity and pending
/// rewards, a claim at `now` pays the pending rewards plus
/// `(reward_rate * elapsed * liquidity / total_liquidity) * multiplier / 1000`
/// (no more than the largest `i128`), which is what the pending-rewards query
/// reports at the same moment; so doubling the multiplier doubles what the
/// elapsed time earns, up to rounding.
pub proof fn lemma_claim_pays_scaled_accrual(pool: LiquidityFarmPool, position: FarmingPosition, now: u64)
    requires
        accrual_fits(pool, position, now),
        pool.total_liquidity > 0,
        pool.reward_rate >= 0,
        position.liquidity_amount >= 0,
        position.pending_rewards >= 0,
    ensures
        ({
            let elapsed = elapsed_since(position, now);
            let share = (pool.reward_rate * elapsed * position.liquidity_amount) / (pool.total_liquidity as int);
            let earned = (share * pool.season_multiplier) / 1000;
            let paid = settled(pool, position, now).pending_rewards;
            &&& earned >= 0
            &&& position.pending_rewards + earned <= i128::MAX ==> paid == position.pending_rewards + earned
            &&& position.pending_rewards + earned > i128::MAX ==> paid == i128::MAX
            &&& elapsed > 0 && position.pending_rewards + earned <= i128::MAX ==> paid == position.pending_rewards
                + queried(pool, position.liquidity_amount, elapsed)
        }),
{
    let elapsed = elapsed_since(position, now);
    let a = pool.reward_rate * elapsed;
    assert(a >= 0) by (nonlinear_arith)
        requires pool.reward_rate >= 0, elapsed >= 0, a == pool.reward_rate * elapsed;
    let b = a * position.liquidity_amount;
    assert(b >= 0) by (nonlinear_arith)
        requires a >= 0, position.liquidity_amount >= 0, b == a * position.liquidity_amount;
    let t = pool.total_liquidity as int;
    let share = b / t;
    assert(share >= 0) by (nonlinear_arith)
        requires b >= 0, t > 0, share == b / t;
    let m = pool.season_multiplier as int;
    assert(share * m >= 0) by (nonlinear_arith)
        requires share >= 0, m >= 0;
    assert(pool.reward_rate * elapsed * position.liquidity_amount == b);
    assert(tdiv(b, t) == share);
    assert(accrued(pool, position.liquidity_amount, elapsed) == (share * m) / 1000);
    assert((share * m) / 1000 >= 0) by (nonlinear_arith)
        requires share * m >= 0;
    if elapsed == 0 {
        assert(b == 0) by (nonlinear_arith)
            requires elapsed == 0, a == pool.reward_rate * elapsed, b == a * position.liquidity_amount;
        assert(share == 0) by (nonlinear_arith)
            requires b == 0, t > 0, share == b / t;
        assert(share * m == 0) by (nonlinear_arith)
            requires share == 0;
    } else {
        assert(tdiv(share * m, 1000) == (share * m) / 1000);
        assert(queried(pool, position.liquidity_amount, elapsed) == (share * m) / 1000);
    }
}

} // verus!
