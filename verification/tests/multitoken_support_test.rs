use quorum_credit::errors::ContractError;
use quorum_credit::multitoken_support::{
    acquire_reentrancy_guard, assert_not_reentered, calculate_dynamic_yield_bps, calculate_yield_amount,
    configure_loan_token_swap, get_liquidity_tier_yield_bonuses, is_token_swap_allowed, register_bridge_token,
    release_reentrancy_guard, update_bridged_token_balance,
};
use quorum_credit::types::Address;

#[test]
fn test_reentrancy_guard_acquire_release() {
    let held = acquire_reentrancy_guard(None).unwrap();
    assert_eq!(held, 1);
    assert_eq!(acquire_reentrancy_guard(Some(held)), Err(ContractError::Reentrancy));
    assert_eq!(assert_not_reentered(Some(held)), Err(ContractError::Reentrancy));
    let released = release_reentrancy_guard();
    assert_eq!(assert_not_reentered(Some(released)), Ok(()));
    assert_eq!(acquire_reentrancy_guard(Some(released)), Ok(1));
}

#[test]
fn test_bridge_token_registration() {
    let token = Address::contract(1, 1);
    let bridge = Address::contract(2, 2);
    let source = Address::contract(3, 3);
    let meta = register_bridge_token(token, bridge, source, 7, 10_000, 50).unwrap();
    assert_eq!(meta.price_bps, 10_000);
    assert_eq!(meta.source_chain_id, 7);
    assert_eq!(meta.price_updated_at, 50);
    assert!(meta.enabled);
    assert_eq!(register_bridge_token(token, bridge, source, 7, 0, 50), Err(ContractError::InvalidAmount));
    assert_eq!(register_bridge_token(token, bridge, source, 7, 1_000_001, 50), Err(ContractError::InvalidAmount));
}

#[test]
fn test_bridged_token_balance_tracking() {
    let b = update_bridged_token_balance(None, 500).unwrap();
    assert_eq!(b, 500);
    let b = update_bridged_token_balance(Some(b), -200).unwrap();
    assert_eq!(b, 300);
    assert_eq!(update_bridged_token_balance(Some(b), -301), Err(ContractError::InsufficientFunds));
    assert_eq!(update_bridged_token_balance(Some(i128::MAX), 1), Err(ContractError::StakeOverflow));
}

#[test]
fn test_token_swap_configuration() {
    let primary = Address::contract(1, 1);
    let alt = Address::contract(4, 4);
    let other = Address::contract(5, 5);
    let cfg = configure_loan_token_swap(9, primary, vec![alt], Address::contract(6, 6), 300, 10).unwrap();
    assert_eq!(cfg.max_slippage_bps, 300);
    let stored = Some(cfg);
    assert!(is_token_swap_allowed(&stored, primary));
    assert!(is_token_swap_allowed(&stored, alt));
    assert!(!is_token_swap_allowed(&stored, other));
    assert!(!is_token_swap_allowed(&None, primary));
    assert!(configure_loan_token_swap(9, primary, vec![], Address::contract(6, 6), 10_001, 10).is_err());
}

#[test]
fn test_dynamic_yield_calculation() {
    let bonuses = get_liquidity_tier_yield_bonuses(None);
    // base_yield = 200 (2%), tier 0 bonus = 0: total = 200
    assert_eq!(calculate_dynamic_yield_bps(200, Some(0), &bonuses), 200);
    // tier 3 bonus = 350: total = 550 (5.5%)
    assert_eq!(calculate_dynamic_yield_bps(200, Some(3), &bonuses), 550);
}

#[test]
fn test_yield_amount_calculation() {
    // 1 XLM (10_000_000 stroops) at 2% yield = 200_000 stroops
    let stake = 10_000_000i128;
    let yield_bps = 200;
    let expected = 200_000i128;
    let result = calculate_yield_amount(stake, yield_bps).unwrap();
    assert_eq!(result, expected);

    // 0.5 XLM (5_000_000 stroops) at 5% yield = 250_000 stroops
    let stake = 5_000_000i128;
    let yield_bps = 500;
    let expected = 250_000i128;
    let result = calculate_yield_amount(stake, yield_bps).unwrap();
    assert_eq!(result, expected);
}
