use quorum_credit::errors::ContractError;
use quorum_credit::pool_composability::{
    calculate_allocation_bps, calculate_weighted_avg_apy, create_portfolio_snapshot, deactivate_pool,
    deposit_to_external_pool, get_active_pools, get_aggregated_yield, get_portfolio_allocation,
    get_total_external_tvl, is_pool_stale, record_yield_earning, register_external_pool, set_freshness_window,
    ExternalPoolDeposit, ExternalPoolInterface, DEFAULT_FRESHNESS_WINDOW_SECS,
};
use quorum_credit::types::Address;

#[test]
fn test_pool_allocation_calculation() {
    // Test that allocation percentages are calculated correctly
    let amount = 500i128;
    let total = 1000i128;
    let allocation_percentage_bps = calculate_allocation_bps(amount, total);

    assert_eq!(allocation_percentage_bps, 5000); // 50%
}

fn external(id: Option<u64>, now: u64) -> ExternalPoolInterface {
    register_external_pool("blend".to_string(), Address::contract(9, 9), "lending".to_string(), now, id).unwrap().0
}

#[test]
fn register_requires_names_and_counts_ids() {
    let (p, next) =
        register_external_pool("blend".to_string(), Address::contract(9, 9), "lending".to_string(), 10, None).unwrap();
    assert_eq!(p.pool_id, 1);
    assert_eq!(next, 2);
    assert!(p.is_active);
    assert_eq!(p.last_updated, 10);
    assert!(register_external_pool(String::new(), Address::contract(9, 9), "x".to_string(), 10, None).is_err());
}

#[test]
fn deposits_and_allocations() {
    let (d1, next) = deposit_to_external_pool(1, 10, 300, 5, None).unwrap();
    let (d2, _) = deposit_to_external_pool(1, 11, 100, 5, Some(next)).unwrap();
    let (d3, _) = deposit_to_external_pool(2, 10, 999, 5, Some(9)).unwrap();
    assert_eq!(d1.deposit_id, 1);
    assert_eq!(d2.deposit_id, 2);
    assert_eq!(deposit_to_external_pool(1, 10, 0, 5, None), Err(ContractError::InvalidAmount));
    let deposits = vec![d1, d2, d3];
    let alloc = get_portfolio_allocation(&deposits, 1);
    assert_eq!(alloc.len(), 2);
    assert_eq!(alloc[0].allocation_percentage_bps, 7500);
    assert_eq!(alloc[1].allocation_percentage_bps, 2500);
    assert_eq!(alloc[0].pool_type, "external");
    assert!(get_portfolio_allocation(&deposits, 3).is_empty());
    let snap = create_portfolio_snapshot(1, 1000, 7, &deposits).unwrap();
    assert_eq!(snap.allocations[0].allocation_percentage_bps, 3000);
    assert_eq!(snap.allocations[1].allocation_percentage_bps, 1000);
    assert!(create_portfolio_snapshot(1, 0, 7, &deposits).is_err());
}

#[test]
fn yields_and_staleness() {
    let window = set_freshness_window(DEFAULT_FRESHNESS_WINDOW_SECS).unwrap();
    assert_eq!(set_freshness_window(0), Err(ContractError::InvalidAmount));
    let mut pools = vec![external(Some(10), 0), external(Some(11), 0)];
    let mut deposits: Vec<ExternalPoolDeposit> = vec![
        deposit_to_external_pool(1, 10, 300, 0, Some(1)).unwrap().0,
        deposit_to_external_pool(1, 11, 100, 0, Some(2)).unwrap().0,
    ];
    let now = window + 100;
    // Pool 10 reports at `now`; pool 11 has gone stale.
    let e = record_yield_earning(1, 40, 800, now, &mut deposits, &mut pools).unwrap();
    assert_eq!(e.amount, 40);
    assert_eq!(deposits[0].yield_earned, 40);
    assert_eq!(pools[0].last_updated, now);
    assert!(!is_pool_stale(pools[0].last_updated, now, window));
    assert!(is_pool_stale(pools[1].last_updated, now, window));
    assert_eq!(get_aggregated_yield(&deposits, 1), 40);
    assert_eq!(get_total_external_tvl(&deposits, &pools, now, window), 300);
    // Only the fresh deposit weighs in: it carries the whole weight.
    let earnings = vec![e];
    assert_eq!(calculate_weighted_avg_apy(&earnings, &deposits, &pools, 1, now, window), Ok(800));
    assert_eq!(calculate_weighted_avg_apy(&earnings, &deposits, &pools, 2, now, window), Err(ContractError::NotFound));
    assert!(record_yield_earning(1, 0, 800, now, &mut deposits, &mut pools).is_err());
    let active = get_active_pools(&pools, now, window);
    assert_eq!(active.len(), 2);
    assert!(!active[0].1);
    assert!(active[1].1);
    assert_eq!(deactivate_pool(&mut pools, 11), Ok(()));
    assert!(!pools[1].is_active);
    assert_eq!(deactivate_pool(&mut pools, 99), Err(ContractError::NotFound));
}

#[test]
fn test_stale_pool_excluded_from_tvl_and_apy() {
    let window = DEFAULT_FRESHNESS_WINDOW_SECS;
    let now = 1_000;
    let (pool, _) =
        register_external_pool("some-protocol".to_string(), Address::contract(5, 5), "farming".to_string(), now, None)
            .unwrap();
    let pool_id = pool.pool_id;
    let mut pools = vec![pool];
    let (deposit, _) = deposit_to_external_pool(1, pool_id, 1_000, now, None).unwrap();
    let mut deposits = vec![deposit];
    let earning = record_yield_earning(deposit.deposit_id, 100, 500, now, &mut deposits, &mut pools).unwrap();
    let earnings = vec![earning];

    assert_eq!(get_total_external_tvl(&deposits, &pools, now, window), 1_000);
    assert_eq!(calculate_weighted_avg_apy(&earnings, &deposits, &pools, 1, now, window).unwrap(), 500);
    let active = get_active_pools(&pools, now, window);
    assert_eq!(active[0].1, false);

    let later = 1_000 + 8 * 24 * 60 * 60;
    assert_eq!(get_total_external_tvl(&deposits, &pools, later, window), 0);
    assert_eq!(
        calculate_weighted_avg_apy(&earnings, &deposits, &pools, 1, later, window).unwrap_err(),
        ContractError::NotFound
    );
    let active = get_active_pools(&pools, later, window);
    assert_eq!(active[0].1, true);
}

#[test]
fn test_pool_becomes_fresh_again_after_reporting() {
    let window = DEFAULT_FRESHNESS_WINDOW_SECS;
    let (pool, _) =
        register_external_pool("some-protocol".to_string(), Address::contract(5, 5), "farming".to_string(), 1_000, None)
            .unwrap();
    let pool_id = pool.pool_id;
    let mut pools = vec![pool];
    let (deposit, _) = deposit_to_external_pool(1, pool_id, 1_000, 1_000, None).unwrap();
    let mut deposits = vec![deposit];

    let later = 1_000 + 8 * 24 * 60 * 60;
    assert_eq!(get_total_external_tvl(&deposits, &pools, later, window), 0);

    record_yield_earning(deposit.deposit_id, 50, 300, later, &mut deposits, &mut pools).unwrap();
    assert_eq!(get_total_external_tvl(&deposits, &pools, later, window), 1_000);
}
