use quorum_credit::arith::{saturating_add_i128, saturating_sub_i128};
use quorum_credit::text::{push_decimal, push_seconds};

#[test]
fn decimal_rendering() {
    let mut s = String::from("n=");
    push_decimal(&mut s, 0);
    assert_eq!(s, "n=0");
    let mut s = String::new();
    push_decimal(&mut s, 1_234_567);
    assert_eq!(s, "1234567");
    let mut s = String::new();
    push_decimal(&mut s, u64::MAX);
    assert_eq!(s, u64::MAX.to_string());
}

#[test]
fn seconds_rendering_drops_trailing_zeros() {
    let mut s = String::new();
    push_seconds(&mut s, 2_000_000);
    assert_eq!(s, "2");
    let mut s = String::new();
    push_seconds(&mut s, 1_500_000);
    assert_eq!(s, "1.5");
    let mut s = String::new();
    push_seconds(&mut s, 5);
    assert_eq!(s, "0.000005");
    let mut s = String::new();
    push_seconds(&mut s, 12_340_100);
    assert_eq!(s, "12.3401");
}

#[test]
fn saturating_arithmetic() {
    assert_eq!(saturating_add_i128(i128::MAX, 1), i128::MAX);
    assert_eq!(saturating_add_i128(i128::MIN, -1), i128::MIN);
    assert_eq!(saturating_add_i128(2, 3), 5);
    assert_eq!(saturating_sub_i128(i128::MIN, 1), i128::MIN);
    assert_eq!(saturating_sub_i128(i128::MAX, -1), i128::MAX);
    assert_eq!(saturating_sub_i128(2, 3), -1);
}
