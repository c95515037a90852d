use quorum_credit::loyalty::{
    apply_loyalty_fee_waiver, apply_loyalty_interest_discount, apply_loyalty_min_stake_discount, benefits_for_tier,
    claim_anniversary_bonus, get_loyalty_benefits, load_loyalty_record, record_repayment_for_loyalty, tier_for_count,
    LoyaltyTier, LOYALTY_ANNIVERSARY_PERIOD_SECS,
};
use quorum_credit::types::Address;

fn user() -> Address {
    Address::account(3, 3)
}

#[test]
fn tiers_follow_repayment_counts() {
    assert_eq!(tier_for_count(0), LoyaltyTier::Bronze);
    assert_eq!(tier_for_count(4), LoyaltyTier::Bronze);
    assert_eq!(tier_for_count(5), LoyaltyTier::Silver);
    assert_eq!(tier_for_count(19), LoyaltyTier::Silver);
    assert_eq!(tier_for_count(20), LoyaltyTier::Gold);
    assert_eq!(benefits_for_tier(LoyaltyTier::Gold).fee_waiver_bps, 10_000);
    assert_eq!(benefits_for_tier(LoyaltyTier::Silver).interest_rate_discount_bps, 50);
}

#[test]
fn fifth_repayment_upgrades_to_silver() {
    let mut rec = load_loyalty_record(None, user(), 100);
    assert_eq!(rec.tier, LoyaltyTier::Bronze);
    assert_eq!(rec.member_since, 100);
    for t in 0..4u64 {
        let u = record_repayment_for_loyalty(rec, 200 + t);
        assert_eq!(u.upgrade, None);
        rec = u.record;
    }
    let u = record_repayment_for_loyalty(rec, 500);
    assert_eq!(u.upgrade, Some((LoyaltyTier::Bronze, LoyaltyTier::Silver)));
    assert_eq!(u.record.repayment_count, 5);
    assert_eq!(u.record.last_tier_upgrade_at, 500);
    assert_eq!(get_loyalty_benefits(&u.record).min_stake_discount_bps, 500);
}

#[test]
fn anniversary_bonus_once_a_year() {
    let mut rec = load_loyalty_record(None, user(), 1_000);
    rec.tier = LoyaltyTier::Gold;
    // Not a year yet.
    let (same, bps) = claim_anniversary_bonus(rec, 1_000 + LOYALTY_ANNIVERSARY_PERIOD_SECS - 1, 1_000_000);
    assert_eq!(bps, 0);
    assert_eq!(same, rec);
    // A year on: 1.5% of the principal is earned.
    let now = 1_000 + LOYALTY_ANNIVERSARY_PERIOD_SECS;
    let (claimed, bps) = claim_anniversary_bonus(rec, now, 1_000_000);
    assert_eq!(bps, 150);
    assert_eq!(claimed.total_benefits_earned, 15_000);
    assert_eq!(claimed.last_anniversary_bonus_at, now);
    // Claiming again at once gives nothing.
    let (again, bps) = claim_anniversary_bonus(claimed, now, 1_000_000);
    assert_eq!(bps, 0);
    assert_eq!(again, claimed);
    // Bronze members earn no bonus.
    let bronze = load_loyalty_record(None, user(), 0);
    assert_eq!(claim_anniversary_bonus(bronze, 10 * LOYALTY_ANNIVERSARY_PERIOD_SECS, 1_000_000).1, 0);
}

#[test]
fn discounts_and_waivers() {
    let mut rec = load_loyalty_record(None, user(), 0);
    assert_eq!(apply_loyalty_interest_discount(&rec, 300), 300);
    assert_eq!(apply_loyalty_fee_waiver(&rec, 1_000), 1_000);
    rec.tier = LoyaltyTier::Silver;
    assert_eq!(apply_loyalty_interest_discount(&rec, 300), 250);
    assert_eq!(apply_loyalty_interest_discount(&rec, 30), 0);
    assert_eq!(apply_loyalty_fee_waiver(&rec, 1_000), 750);
    assert_eq!(apply_loyalty_min_stake_discount(&rec, 1_000), 950);
    rec.tier = LoyaltyTier::Gold;
    assert_eq!(apply_loyalty_fee_waiver(&rec, 1_000), 0);
    assert_eq!(apply_loyalty_min_stake_discount(&rec, 1), 1);
}
