use quorum_credit::errors::ContractError;
use quorum_credit::proof_of_work::{
    adjust_difficulty_if_needed, count_leading_zeros, get_pow_difficulty, is_nonce_used, require_pow_for_operation,
    set_pow_difficulty, verify_pow, PowAdjustment, PowCheck, DEFAULT_POW_DIFFICULTY, MAX_POW_DIFFICULTY,
};

#[test]
fn test_verify_pow_valid() {
    let nonce_with_zeros = 0x0000000000000001u64;
    let result = verify_pow(nonce_with_zeros, 2);
    assert!(result.is_ok());
    assert_eq!(result.unwrap(), true);
}

#[test]
fn test_verify_pow_invalid_difficulty() {
    let nonce = 12345u64;
    let result = verify_pow(nonce, MAX_POW_DIFFICULTY + 1);
    assert!(result.is_err());
    assert_eq!(verify_pow(nonce, 0), Err(ContractError::InvalidDifficulty));
}

#[test]
fn test_set_and_get_difficulty() {
    assert_eq!(get_pow_difficulty(None), DEFAULT_POW_DIFFICULTY);
    let (d, history) = set_pow_difficulty(None, Vec::new(), 5, 10).unwrap();
    assert_eq!(d, 5);
    assert_eq!(get_pow_difficulty(Some(d)), 5);
    assert_eq!(history, vec![(10, DEFAULT_POW_DIFFICULTY, 5)]);
    assert_eq!(set_pow_difficulty(Some(d), history, 21, 11), Err(ContractError::InvalidDifficulty));
}

#[test]
fn test_nonce_replay_protection() {
    let nonce = 0x0000000000000001u64;
    let first = require_pow_for_operation(None, is_nonce_used(None), None, nonce);
    assert!(first.is_ok() && first.unwrap().valid);
    let second = require_pow_for_operation(None, is_nonce_used(Some(true)), first.unwrap().new_count, nonce);
    assert!(second.is_err() || !second.unwrap().valid);
    assert_eq!(second, Err(ContractError::NonceAlreadyUsed));
}

#[test]
fn test_count_leading_zeros() {
    // Test various values
    assert_eq!(count_leading_zeros(0), 64);
    assert_eq!(count_leading_zeros(0x00000001), 32);
    assert_eq!(count_leading_zeros(0x80000000), 0);
}

#[test]
fn leading_zeros_within_the_low_word() {
    assert_eq!(count_leading_zeros(2), 30);
    assert_eq!(count_leading_zeros(3), 30);
    assert_eq!(count_leading_zeros(0x0000_FFFF), 16);
    assert_eq!(count_leading_zeros(1 << 40), 23);
    assert_eq!(count_leading_zeros(u64::MAX), 0);
    assert_eq!(count_leading_zeros(1 << 32), 31);
}

#[test]
fn weak_nonce_is_invalid_without_counting() {
    let r = require_pow_for_operation(Some(5), false, Some(7), u64::MAX);
    assert_eq!(r, Ok(PowCheck { valid: false, new_count: None, adjust: false }));
}

#[test]
fn accepted_nonce_counts_and_triggers_adjustment_on_thousands() {
    let r = require_pow_for_operation(None, false, Some(1000), 1).unwrap();
    assert_eq!(r, PowCheck { valid: true, new_count: Some(1001), adjust: true });
    let r = require_pow_for_operation(None, false, Some(999), 1).unwrap();
    assert_eq!(r, PowCheck { valid: true, new_count: Some(1000), adjust: false });
}

#[test]
fn history_keeps_the_last_hundred_changes() {
    let mut history = Vec::new();
    let mut d = None;
    for t in 0..101u64 {
        let (nd, h) = set_pow_difficulty(d, history, 1 + (t % 20) as u32, t).unwrap();
        d = Some(nd);
        history = h;
    }
    assert_eq!(history.len(), 100);
    assert_eq!(history[0].0, 1);
    assert_eq!(history[99].0, 100);
}

#[test]
fn difficulty_adjusts_with_the_rate() {
    // Within the hour: nothing.
    assert_eq!(adjust_difficulty_if_needed(Some(1000), 50_000, 5, 2000), PowAdjustment { new_difficulty: None, reset: false });
    // Busy hour: up by one.
    assert_eq!(adjust_difficulty_if_needed(Some(0), 20_000, 5, 3600), PowAdjustment { new_difficulty: Some(6), reset: true });
    // Quiet hour: down by one.
    assert_eq!(adjust_difficulty_if_needed(Some(0), 10, 5, 3600), PowAdjustment { new_difficulty: Some(4), reset: true });
    // Moderate: unchanged but reset.
    assert_eq!(adjust_difficulty_if_needed(Some(0), 500, 5, 3600), PowAdjustment { new_difficulty: None, reset: true });
    // Capped at the maximum.
    assert_eq!(adjust_difficulty_if_needed(None, 50_000, 20, 3600), PowAdjustment { new_difficulty: None, reset: true });
}
