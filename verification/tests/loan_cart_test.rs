use quorum_credit::errors::ContractError;
use quorum_credit::lending::{LendingConfig, VouchRecord};
use quorum_credit::loan_cart::{
    add_to_loan_cart, apply_volume_discount, empty_stats, is_partial_submission,
    remove_cart_item, submit_batch_loan_request, update_cart_item, LoanCart,
};
use quorum_credit::loans::LoanContext;
use quorum_credit::types::Address;

fn token() -> Address {
    Address::contract(1, 1)
}

fn borrower() -> Address {
    Address::account(2, 2)
}

fn cfg() -> LendingConfig {
    LendingConfig {
        token: token(),
        yield_bps: 200,
        slash_bps: 5000,
        min_loan_amount: 100_000,
        loan_duration: 2_592_000,
        max_loan_to_stake_ratio: 150,
        min_vouch_age_secs: 0,
        prepayment_penalty_bps: 0,
        liquidity_mining_rate_bps: 0,
        oracle_address: None,
    }
}

fn cart_with(amounts: &[i128]) -> LoanCart {
    let mut stats = empty_stats();
    let mut stored = None;
    for a in amounts {
        let u = add_to_loan_cart(stored, stats, borrower(), *a, 2_592_000, 120);
        stats = u.stats;
        stored = Some(u.cart);
    }
    stored.unwrap()
}

fn vouches() -> Vec<VouchRecord> {
    vec![VouchRecord { voucher: Address::account(3, 3), stake: 1_000_000, token: token(), vouch_timestamp: 120 }]
}

fn ctx() -> LoanContext {
    LoanContext {
        now: 130,
        blacklisted: false,
        token_allowed: true,
        has_active_loan: false,
        max_loan_amount: 0,
        min_vouchers: 0,
        contract_balance: 1_000_000_000,
        yield_reserve: 1_000_000_000,
        dynamic_yield_bps: 200,
        loan_count: 0,
        loan_id: 1,
    }
}

#[test]
fn batch_of_three_reports_one_success_and_accurate_discounts() {
    let cart = cart_with(&[200_000, 300_000, 400_000]);
    let s = submit_batch_loan_request(cart, &"test loan".to_string(), 0, token(), &cfg(), ctx(), &vouches(), empty_stats());
    let grant = s.grant.unwrap();
    assert_eq!(grant.loan.amount, 198_000);
    assert_eq!(grant.disbursement.amount, 198_000);
    assert_eq!(s.stats.items_submitted, 1);
    assert!(s.cart.submitted);
    assert!(s.cart.items.is_empty());
    let results = s.results;
    assert_eq!(results.len(), 3);

    let first = &results[0];
    assert!(first.success);
    assert_eq!(first.error_code, None);
    assert_eq!(first.requested_amount, 200_000);
    assert_eq!(first.discounted_amount, 198_000);
    assert!(first.discount_applied);

    for item in &results[1..3] {
        assert!(!item.success);
        assert_eq!(item.error_code, Some(2)); // ContractError::ActiveLoanExists
        assert_eq!(item.discounted_amount, item.requested_amount);
        assert!(!item.discount_applied);
    }
    assert_eq!(s.success_count, 1);
    assert!(is_partial_submission(s.success_count, 3));
}

#[test]
fn batch_with_an_active_loan_grants_nothing() {
    let cart = cart_with(&[200_000, 300_000]);
    let mut c = ctx();
    c.has_active_loan = true;
    let s = submit_batch_loan_request(cart, &"test loan".to_string(), 0, token(), &cfg(), c, &vouches(), empty_stats());
    assert_eq!(s.success_count, 0);
    assert!(s.grant.is_none());
    assert!(s.results.iter().all(|r| r.error_code == Some(ContractError::ActiveLoanExists.code())));
    assert_eq!(s.stats.carts_submitted, 1);
}

#[test]
fn batch_item_below_minimum_fails_and_the_next_succeeds() {
    let cart = cart_with(&[50_000, 300_000]);
    let s = submit_batch_loan_request(cart, &"test loan".to_string(), 0, token(), &cfg(), ctx(), &vouches(), empty_stats());
    assert!(!s.results[0].success);
    assert_eq!(s.results[0].error_code, Some(ContractError::LoanBelowMinAmount.code()));
    assert!(s.results[1].success);
    assert_eq!(s.grant.unwrap().loan.amount, 300_000);
}

#[test]
fn remove_cart_item_drops_only_the_targeted_item() {
    let cart = cart_with(&[100_000, 200_000, 300_000]);
    let u = remove_cart_item(Some(cart), empty_stats(), 1, 130).unwrap();
    assert_eq!(u.cart.items.len(), 2);
    assert_eq!(u.cart.items[0].amount, 100_000);
    assert_eq!(u.cart.items[1].amount, 300_000);
    assert_eq!(u.stats.items_removed, 1);
    assert_eq!(u.stats.carts_submitted, 0);
}

#[test]
fn update_cart_item_replaces_amount_and_tenure_in_place() {
    let cart = cart_with(&[100_000, 200_000]);
    let u = update_cart_item(Some(cart), empty_stats(), 0, 150_000, 1_296_000, 130).unwrap();
    assert_eq!(u.cart.items.len(), 2);
    assert_eq!(u.cart.items[0].amount, 150_000);
    assert_eq!(u.cart.items[0].tenure_secs, 1_296_000);
    assert_eq!(u.cart.items[0].added_at, 120);
    assert_eq!(u.cart.items[1].amount, 200_000);
    assert_eq!(u.stats.items_edited, 1);
}

#[test]
fn batch_of_two_never_discounts() {
    let cart = cart_with(&[100_000, 200_000]);
    let s = submit_batch_loan_request(cart, &"test loan".to_string(), 0, token(), &cfg(), ctx(), &vouches(), empty_stats());
    let first = &s.results[0];
    assert!(first.success);
    assert_eq!(first.discounted_amount, first.requested_amount);
    assert!(!first.discount_applied);
}

#[test]
fn volume_discount_from_three_items() {
    assert_eq!(apply_volume_discount(200_000, 2), 200_000);
    assert_eq!(apply_volume_discount(200_000, 3), 198_000);
}

#[test]
fn remove_cart_item_out_of_range_returns_not_found() {
    let cart = cart_with(&[100_000]);
    let result = remove_cart_item(Some(cart), empty_stats(), 5, 130);
    assert_eq!(result.err(), Some(ContractError::NotFound));
}

#[test]
fn update_cart_item_out_of_range_returns_not_found() {
    let cart = cart_with(&[100_000]);
    let result = update_cart_item(Some(cart), empty_stats(), 5, 100_000, 2_592_000, 130);
    assert_eq!(result.err(), Some(ContractError::NotFound));
}

#[test]
fn remove_cart_item_with_no_cart_returns_not_found() {
    let result = remove_cart_item(None, empty_stats(), 0, 130);
    assert_eq!(result.err(), Some(ContractError::NotFound));
}
