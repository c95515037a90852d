//! Loyalty program with tiered rewards.
//!
//! | Tier   | Repayment count | Interest discount | Fee waiver | Min stake discount | Anniversary bonus |
//! |--------|-----------------|-------------------|------------|--------------------|-------------------|
//! | Bronze | 0–4             | 0 bps             | 0%         | 0%                 | 0 bps             |
//! | Silver | 5–19            | 50 bps            | 25%        | 5%                 | 50 bps            |
//! | Gold   | 20+             | 150 bps           | 100%       | 15%                | 150 bps           |
//!
//! Each operation takes the user's stored record (`None` when the user has
//! none yet) and returns the record to store.
use vstd::prelude::*;
use crate::arith::{bps_of, lemma_mul_within};
use crate::types::Address;

verus! {

/// Repayments needed to reach Silver.
pub const LOYALTY_SILVER_THRESHOLD: u32 = 5;
/// Repayments needed to reach Gold.
pub const LOYALTY_GOLD_THRESHOLD: u32 = 20;
/// The anniversary bonus can be claimed once per this many seconds (one year).
pub const LOYALTY_ANNIVERSARY_PERIOD_SECS: u64 = 31_536_000;

#[derive(Clone, Copy, Debug, PartialEq, Eq, Structural)]
pub enum LoyaltyTier {
    Bronze,
    Silver,
    Gold,
}

/// The benefit package of a tier.
#[derive(Clone, Copy, Debug, PartialEq, Eq, Structural)]
pub struct LoyaltyBenefits {
    pub interest_rate_discount_bps: i128,
    pub fee_waiver_bps: u32,
    pub min_stake_discount_bps: u32,
    pub anniversary_bonus_bps: u32,
}

/// A user's loyalty state.
#[derive(Clone, Copy, Debug, PartialEq, Eq, Structural)]
pub struct LoyaltyRecord {
    pub user: Address,
    pub tier: LoyaltyTier,
    pub repayment_count: u32,
    pub member_since: u64,
    pub last_tier_upgrade_at: u64,
    pub last_anniversary_bonus_at: u64,
    pub total_benefits_earned: i128,
}

pub open spec fn spec_tier_for_count(count: u32) -> LoyaltyTier {
    if count >= LOYALTY_GOLD_THRESHOLD {
        LoyaltyTier::Gold
    } else if count >= LOYALTY_SILVER_THRESHOLD {
        LoyaltyTier::Silver
    } else {
        LoyaltyTier::Bronze
    }
}

pub open spec fn spec_benefits_for_tier(tier: LoyaltyTier) -> LoyaltyBenefits {
    match tier {
        LoyaltyTier::Bronze => LoyaltyBenefits {
            interest_rate_discount_bps: 0, fee_waiver_bps: 0, min_stake_discount_bps: 0, anniversary_bonus_bps: 0,
        },
        LoyaltyTier::Silver => LoyaltyBenefits {
            interest_rate_discount_bps: 50, fee_waiver_bps: 2500, min_stake_discount_bps: 500, anniversary_bonus_bps: 50,
        },
        LoyaltyTier::Gold => LoyaltyBenefits {
            interest_rate_discount_bps: 150, fee_waiver_bps: 10000, min_stake_discount_bps: 1500, anniversary_bonus_bps: 150,
        },
    }
}

/// Rank of a tier: Bronze 0, Silver 1, Gold 2.
pub open spec fn tier_rank(tier: LoyaltyTier) -> int {
    match tier {
        LoyaltyTier::Bronze => 0,
        LoyaltyTier::Silver => 1,
        LoyaltyTier::Gold => 2,
    }
}

/// Determine the tier corresponding to a repayment count.
pub fn tier_for_count(count: u32) -> (t: LoyaltyTier)
    ensures
        t == spec_tier_for_count(count),
{
    if count >= LOYALTY_GOLD_THRESHOLD {
        LoyaltyTier::Gold
    } else if count >= LOYALTY_SILVER_THRESHOLD {
        LoyaltyTier::Silver
    } else {
        LoyaltyTier::Bronze
    }
}

/// Return the benefits for a given tier.
pub fn benefits_for_tier(tier: LoyaltyTier) -> (b: LoyaltyBenefits)
    ensures
        b == spec_benefits_for_tier(tier),
{
    match tier {
        LoyaltyTier::Bronze => LoyaltyBenefits {
            interest_rate_discount_bps: 0, fee_waiver_bps: 0, min_stake_discount_bps: 0, anniversary_bonus_bps: 0,
        },
        LoyaltyTier::Silver => LoyaltyBenefits {
            interest_rate_discount_bps: 50, fee_waiver_bps: 2500, min_stake_discount_bps: 500, anniversary_bonus_bps: 50,
        },
        LoyaltyTier::Gold => LoyaltyBenefits {
            interest_rate_discount_bps: 150, fee_waiver_bps: 10000, min_stake_discount_bps: 1500, anniversary_bonus_bps: 150,
        },
    }
}

/// The record a user starts with: Bronze, no repayments, member since `now`.
pub open spec fn fresh_record(user: Address, now: u64) -> LoyaltyRecord {
    LoyaltyRecord {
        user,
        tier: LoyaltyTier::Bronze,
        repayment_count: 0,
        member_since: now,
        last_tier_upgrade_at: 0,
        last_anniversary_bonus_at: 0,
        total_benefits_earned: 0,
    }
}

/// The user's record: the stored one, or a fresh Bronze record.
pub fn load_loyalty_record(stored: Option<LoyaltyRecord>, user: Address, now: u64) -> (r: LoyaltyRecord)
    ensures
        r == match stored {
            Some(rec) => rec,
            None => fresh_record(user, now),
        },
{
    match stored {
        Some(rec) => rec,
        None => LoyaltyRecord {
            user,
            tier: LoyaltyTier::Bronze,
            repayment_count: 0,
            member_since: now,
            last_tier_upgrade_at: 0,
            last_anniversary_bonus_at: 0,
            total_benefits_earned: 0,
        },
    }
}

/// The loyalty benefits package for the user's current tier.
pub fn get_loyalty_benefits(record: &LoyaltyRecord) -> (b: LoyaltyBenefits)
    ensures
        b == spec_benefits_for_tier(record.tier),
{
    benefits_for_tier(record.tier)
}

/// Outcome of recording one repayment: the record to store, and the
/// `(old, new)` tiers when the tier changed (the upgrade event).
pub struct RepaymentUpdate {
    pub record: LoyaltyRecord,
    pub upgrade: Option<(LoyaltyTier, LoyaltyTier)>,
}

/// Update a user's loyalty record after a successful loan repayment: the
/// count goes up by one and the tier follows the new count.
pub fn record_repayment_for_loyalty(record: LoyaltyRecord, now: u64) -> (u: RepaymentUpdate)
    requires
        record.repayment_count < u32::MAX,
    ensures
        u.record.repayment_count == record.repayment_count + 1,
        u.record.tier == spec_tier_for_count(u.record.repayment_count),
        u.record.user == record.user,
        u.record.member_since == record.member_since,
        u.record.last_anniversary_bonus_at == record.last_anniversary_bonus_at,
        u.record.total_benefits_earned == record.total_benefits_earned,
        u.record.last_tier_upgrade_at == (if u.record.tier != record.tier { now } else { record.last_tier_upgrade_at }),
        u.upgrade == (if u.record.tier != record.tier {
            Some((record.tier, u.record.tier))
        } else {
            None
        }),
{
    let mut rec = record;
    rec.repayment_count = rec.repayment_count + 1;
    let new_tier = tier_for_count(rec.repayment_count);
    let old_tier = rec.tier;
    let mut upgrade = None;
    if new_tier != old_tier {
        rec.tier = new_tier;
        rec.last_tier_upgrade_at = now;
        upgrade = Some((old_tier, new_tier));
    }
    RepaymentUpdate { record: rec, upgrade }
}

/// When the anniversary clock of `record` started: the last claim, or the
/// membership date when nothing was claimed yet.
pub open spec fn anniversary_start(record: LoyaltyRecord) -> u64 {
    if record.last_anniversary_bonus_at > 0 {
        record.last_anniversary_bonus_at
    } else {
        record.member_since
    }
}

/// Whether the anniversary bonus can be claimed at `now`.
pub open spec fn anniversary_due(record: LoyaltyRecord, now: u64) -> bool {
    &&& spec_benefits_for_tier(record.tier).anniversary_bonus_bps != 0
    &&& now >= anniversary_start(record) + LOYALTY_ANNIVERSARY_PERIOD_SECS
}

/// The stroops value of the anniversary bonus on `loan_principal`.
pub open spec fn anniversary_bonus_stroops(record: LoyaltyRecord, loan_principal: i128) -> int {
    if loan_principal > 0 {
        loan_principal * spec_benefits_for_tier(record.tier).anniversary_bonus_bps / 10_000
    } else {
        0
    }
}

/// Claim the anniversary loyalty bonus. Returns the record to store and the
/// bonus in basis points; 0 (record unchanged) for Bronze or before a full
/// year since the last claim (or membership start).
pub fn claim_anniversary_bonus(record: LoyaltyRecord, now: u64, loan_principal: i128) -> (r: (LoyaltyRecord, u32))
    requires
        anniversary_start(record) + LOYALTY_ANNIVERSARY_PERIOD_SECS <= u64::MAX,
        loan_principal * 150 <= i128::MAX,
        record.total_benefits_earned + anniversary_bonus_stroops(record, loan_principal) <= i128::MAX,
    ensures
        anniversary_due(record, now) ==> {
            &&& r.1 == spec_benefits_for_tier(record.tier).anniversary_bonus_bps
            &&& r.0 == LoyaltyRecord {
                last_anniversary_bonus_at: now,
                total_benefits_earned: (record.total_benefits_earned
                    + anniversary_bonus_stroops(record, loan_principal)) as i128,
                ..record
            }
        },
        !anniversary_due(record, now) ==> r.1 == 0 && r.0 == record,
{
    let benefits = benefits_for_tier(record.tier);
    if benefits.anniversary_bonus_bps == 0 {
        return (record, 0);
    }
    let last_claim = if record.last_anniversary_bonus_at > 0 {
        record.last_anniversary_bonus_at
    } else {
        record.member_since
    };
    if now < last_claim + LOYALTY_ANNIVERSARY_PERIOD_SECS {
        return (record, 0);
    }
    let mut rec = record;
    rec.last_anniversary_bonus_at = now;
    if loan_principal > 0 {
        let bonus = loan_principal * (benefits.anniversary_bonus_bps as i128) / 10_000;
        rec.total_benefits_earned = rec.total_benefits_earned + bonus;
    }
    (rec, benefits.anniversary_bonus_bps)
}

/// Apply the loyalty interest discount to a base rate, floored at 0.
pub fn apply_loyalty_interest_discount(record: &LoyaltyRecord, base_rate_bps: i128) -> (r: i128)
    requires
        base_rate_bps >= i128::MIN + 150,
    ensures
        r == (if base_rate_bps - spec_benefits_for_tier(record.tier).interest_rate_discount_bps > 0 {
            base_rate_bps - spec_benefits_for_tier(record.tier).interest_rate_discount_bps
        } else {
            0
        }),
{
    let benefits = benefits_for_tier(record.tier);
    let r = base_rate_bps - benefits.interest_rate_discount_bps;
    if r > 0 { r } else { 0 }
}

/// Apply the loyalty fee waiver to a fee, floored at 0.
pub fn apply_loyalty_fee_waiver(record: &LoyaltyRecord, fee_stroops: i128) -> (r: i128)
    requires
        fee_stroops * 10_000 <= i128::MAX,
        fee_stroops * 10_000 >= i128::MIN,
    ensures
        ({
            let waiver = bps_of(fee_stroops as int, spec_benefits_for_tier(record.tier).fee_waiver_bps as int);
            r == (if fee_stroops - waiver > 0 { fee_stroops - waiver } else { 0 })
        }),
{
    let benefits = benefits_for_tier(record.tier);
    proof { lemma_mul_within(fee_stroops as int, benefits.fee_waiver_bps as int, 10_000); }
    let waiver = fee_stroops * (benefits.fee_waiver_bps as i128) / 10_000;
    let r = fee_stroops - waiver;
    if r > 0 { r } else { 0 }
}

/// Apply the loyalty minimum-stake discount, never below 1 stroop.
pub fn apply_loyalty_min_stake_discount(record: &LoyaltyRecord, min_stake: i128) -> (r: i128)
    requires
        min_stake * 10_000 <= i128::MAX,
        min_stake * 10_000 >= i128::MIN,
    ensures
        ({
            let discount = bps_of(min_stake as int, spec_benefits_for_tier(record.tier).min_stake_discount_bps as int);
            r == (if min_stake - discount > 1 { min_stake - discount } else { 1 })
        }),
{
    let benefits = benefits_for_tier(record.tier);
    proof { lemma_mul_within(min_stake as int, benefits.min_stake_discount_bps as int, 10_000); }
    let discount = min_stake * (benefits.min_stake_discount_bps as i128) / 10_000;
    let r = min_stake - discount;
    if r > 1 { r } else { 1 }
}

/// More repayments never give a lower tier.
pub proof fn lemma_tier_monotone(a: u32, b: u32)
    requires
        a <= b,
    ensures
        tier_rank(spec_tier_for_count(a)) <= tier_rank(spec_tier_for_count(b)),
{
}

/// A claimed anniversary bonus cannot be claimed again at the same moment:
/// right after a successful claim at `now`, a second claim at `now` gives 0.
pub proof fn lemma_anniversary_once_per_period(record: LoyaltyRecord, now: u64, principal: i128)
    requires
        anniversary_due(record, now),
        now > 0,
    ensures
        !anniversary_due(
            LoyaltyRecord {
                last_anniversary_bonus_at: now,
                total_benefits_earned: (record.total_benefits_earned
                    + anniversary_bonus_stroops(record, principal)) as i128,
                ..record
            },
            now,
        ),
{
}

} // verus!
