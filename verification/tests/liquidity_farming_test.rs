use quorum_credit::errors::ContractError;
use quorum_credit::liquidity_farming::{
    add_liquidity, calculate_pending_rewards, claim_farming_rewards, compound_rewards, create_farm_pool,
    deactivate_farm_pool, remove_liquidity, set_pool_reward_rate, set_seasonal_multiplier, FarmingPosition,
    LiquidityFarmPool,
};
use quorum_credit::types::Address;

fn token() -> Address {
    Address::contract(7, 7)
}

fn lp(n: u128) -> Address {
    Address::account(n, n)
}

/// A pool created at time 1000 with reward rate 10 per second.
fn pool() -> LiquidityFarmPool {
    create_farm_pool(token(), 10, 1000).unwrap()
}

/// The pool with a single provider staking 1000 at time 1000.
fn staked() -> (LiquidityFarmPool, FarmingPosition) {
    add_liquidity(Some(pool()), None, lp(1), 1000, 1000, 1000).unwrap()
}

#[test]
fn test_create_farm_pool() {
    let p = pool();
    assert_eq!(p.pool_id, 1000);
    assert_eq!(p.reward_rate, 10);
    assert_eq!(p.total_liquidity, 0);
    assert_eq!(p.season_multiplier, 1000);
    assert!(p.active);
    assert_eq!(create_farm_pool(token(), 0, 1000), Err(ContractError::InvalidAmount));
}

#[test]
fn test_add_liquidity_to_pool() {
    let (p, pos) = staked();
    assert_eq!(p.total_liquidity, 1000);
    assert_eq!(pos.liquidity_amount, 1000);
    assert_eq!(pos.lp_provider, lp(1));
    assert_eq!(pos.stake_timestamp, 1000);
    assert_eq!(pos.pending_rewards, 0);
}

#[test]
fn test_cannot_add_negative_liquidity() {
    assert_eq!(add_liquidity(Some(pool()), None, lp(1), 1000, 0, 1000), Err(ContractError::InvalidAmount));
    assert_eq!(add_liquidity(Some(pool()), None, lp(1), 1000, -5, 1000), Err(ContractError::InvalidAmount));
}

#[test]
fn test_cannot_add_to_inactive_pool() {
    let inactive = deactivate_farm_pool(Some(pool())).unwrap();
    assert_eq!(add_liquidity(Some(inactive), None, lp(1), 1000, 100, 1000), Err(ContractError::ContractPaused));
}

#[test]
fn test_remove_liquidity() {
    let (p, pos) = staked();
    let (p2, pos2) = remove_liquidity(Some(p), Some(pos), 400, 1000).unwrap();
    assert_eq!(p2.total_liquidity, 600);
    assert_eq!(pos2.unwrap().liquidity_amount, 600);
}

#[test]
fn test_cannot_remove_more_than_staked() {
    let (p, pos) = staked();
    assert_eq!(remove_liquidity(Some(p), Some(pos), 1001, 1000), Err(ContractError::InsufficientFunds));
}

#[test]
fn test_reward_calculation_time_weighted() {
    // Two providers with half the liquidity each: 10 per second for 100
    // seconds, half of it each.
    let (p, a) = staked();
    let (p, b) = add_liquidity(Some(p), None, lp(2), 1000, 1000, 1000).unwrap();
    assert_eq!(p.total_liquidity, 2000);
    assert_eq!(calculate_pending_rewards(Some(p), Some(a), 1100), Ok(500));
    assert_eq!(calculate_pending_rewards(Some(p), Some(b), 1100), Ok(500));
}

#[test]
fn test_seasonal_reward_multiplier() {
    let (p, pos) = staked();
    let doubled = set_seasonal_multiplier(Some(p), 2000).unwrap();
    assert_eq!(calculate_pending_rewards(Some(p), Some(pos), 1100), Ok(1000));
    assert_eq!(calculate_pending_rewards(Some(doubled), Some(pos), 1100), Ok(2000));
}

#[test]
fn test_claim_farming_rewards() {
    let (p, pos) = staked();
    let (after, paid) = claim_farming_rewards(Some(p), Some(pos), 1100).unwrap();
    assert_eq!(paid, 1000);
    assert_eq!(after.pending_rewards, 0);
    assert_eq!(after.total_rewards_claimed, 1000);
    assert_eq!(after.last_claim_time, 1100);
}

#[test]
fn test_compound_rewards() {
    let (p, pos) = staked();
    let (p2, pos2) = compound_rewards(Some(p), Some(pos), 1100).unwrap().unwrap();
    assert_eq!(pos2.liquidity_amount, 2000);
    assert_eq!(pos2.pending_rewards, 0);
    assert_eq!(pos2.total_rewards_claimed, 1000);
    assert_eq!(p2.total_liquidity, 2000);
    // Nothing accrued yet: nothing to compound.
    assert_eq!(compound_rewards(Some(p), Some(pos), 1000), Ok(None));
}

#[test]
fn test_multiple_positions_in_pool() {
    let (p, a) = staked();
    let (p, b) = add_liquidity(Some(p), None, lp(2), 1000, 3000, 1000).unwrap();
    assert_eq!(p.total_liquidity, 4000);
    // 10 per second for 100 seconds, split 1:3.
    assert_eq!(calculate_pending_rewards(Some(p), Some(a), 1100), Ok(250));
    assert_eq!(calculate_pending_rewards(Some(p), Some(b), 1100), Ok(750));
}

#[test]
fn test_set_pool_reward_rate() {
    let p = set_pool_reward_rate(Some(pool()), 25).unwrap();
    assert_eq!(p.reward_rate, 25);
    assert_eq!(set_pool_reward_rate(Some(pool()), -1), Err(ContractError::InvalidAmount));
    assert_eq!(set_pool_reward_rate(None, 25), Err(ContractError::InvalidAmount));
}

#[test]
fn test_set_seasonal_multiplier() {
    let p = set_seasonal_multiplier(Some(pool()), 1500).unwrap();
    assert_eq!(p.season_multiplier, 1500);
    assert_eq!(set_seasonal_multiplier(Some(pool()), 0), Err(ContractError::InvalidAmount));
}

#[test]
fn test_calculate_pending_rewards_without_claim() {
    let (p, pos) = staked();
    assert_eq!(calculate_pending_rewards(Some(p), Some(pos), 1050), Ok(500));
    // Querying changes nothing: a later claim still pays everything accrued.
    let (_, paid) = claim_farming_rewards(Some(p), Some(pos), 1050).unwrap();
    assert_eq!(paid, 500);
}

#[test]
fn test_deactivate_farm_pool() {
    let (p, pos) = staked();
    let off = deactivate_farm_pool(Some(p)).unwrap();
    assert!(!off.active);
    // Existing positions can still claim and withdraw.
    let (_, paid) = claim_farming_rewards(Some(off), Some(pos), 1100).unwrap();
    assert_eq!(paid, 1000);
    let (p2, _) = remove_liquidity(Some(off), Some(pos), 1000, 1100).unwrap();
    assert_eq!(p2.total_liquidity, 0);
}

#[test]
fn test_remove_position_when_zero_liquidity() {
    let (p, pos) = staked();
    let (_, left) = remove_liquidity(Some(p), Some(pos), 1000, 1000).unwrap();
    assert!(left.is_none());
}

#[test]
fn test_reward_accumulation_without_claiming() {
    let (p, pos) = staked();
    let early = calculate_pending_rewards(Some(p), Some(pos), 1010).unwrap();
    let later = calculate_pending_rewards(Some(p), Some(pos), 1100).unwrap();
    assert_eq!(early, 100);
    assert_eq!(later, 1000);
}
