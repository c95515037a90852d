//! Liquidity-mining campaigns: an admin funds a reward pool for a time
//! window, vouchers record weighted participation during it, and once it
//! has ended each participant claims their share of the pool in proportion
//! to their weight, never more than the pool holds.
use vstd::prelude::*;
use crate::arith::{lemma_tdiv_bounds, tdiv};
use crate::errors::ContractError;
use crate::lending::Transfer;
use crate::types::Address;

verus! {

/// How a campaign weighs participation.
#[derive(Clone, Copy, Debug, PartialEq, Eq, Structural)]
pub enum MiningCampaignType {
    ProportionalStake,
    FlatPerVoucher,
    ReputationWeighted,
}

/// Where a campaign is in its life.
#[derive(Clone, Copy, Debug, PartialEq, Eq, Structural)]
pub enum MiningCampaignStatus {
    Active,
    Ended,
    Cancelled,
}

/// A campaign and its running totals.
#[derive(Clone, Copy, Debug, PartialEq, Eq, Structural)]
pub struct MiningCampaign {
    pub campaign_id: u64,
    pub creator: Address,
    pub token: Address,
    pub incentive_pool: i128,
    pub distributed: i128,
    pub start_timestamp: u64,
    pub end_timestamp: u64,
    pub campaign_type: MiningCampaignType,
    pub status: MiningCampaignStatus,
    pub total_participation: i128,
    pub participant_count: u32,
}

/// First checks of a new campaign, before its pool is deposited: a
/// positive pool and duration, an allowed token and a sponsor (the first
/// admin signer), who is returned.
pub fn prepare_mining_campaign(
    incentive_pool: i128,
    duration_secs: u64,
    token_allowed: bool,
    sponsor: Option<Address>,
) -> (r: Result<Address, ContractError>)
    ensures
        incentive_pool <= 0 || duration_secs == 0 ==> r == Err::<Address, ContractError>(ContractError::InvalidAmount),
        incentive_pool > 0 && duration_secs > 0 && !token_allowed ==> r == Err::<Address, ContractError>(
            ContractError::InvalidToken,
        ),
        incentive_pool > 0 && duration_secs > 0 && token_allowed ==> r == (match sponsor {
            Some(a) => Ok::<Address, ContractError>(a),
            None => Err(ContractError::InvalidAmount),
        }),
{
    if incentive_pool <= 0 {
        return Err(ContractError::InvalidAmount);
    }
    if duration_secs == 0 {
        return Err(ContractError::InvalidAmount);
    }
    if !token_allowed {
        return Err(ContractError::InvalidToken);
    }
    match sponsor {
        Some(a) => Ok(a),
        None => Err(ContractError::InvalidAmount),
    }
}

/// Open a campaign once the sponsor's deposit went through: the contract's
/// balance must have grown by exactly the pool (from `before` to `after`).
/// The campaign gets the id after `counter`, starts at `now` and runs for
/// `duration_secs`.
pub fn open_mining_campaign(
    sponsor: Address,
    token: Address,
    incentive_pool: i128,
    duration_secs: u64,
    campaign_type: MiningCampaignType,
    now: u64,
    before: i128,
    after: i128,
    counter: u64,
) -> (r: Result<MiningCampaign, ContractError>)
    requires
        after - before == incentive_pool ==> counter < u64::MAX && now + duration_secs <= u64::MAX,
    ensures
        !(i128::MIN <= after - before <= i128::MAX) ==> r == Err::<MiningCampaign, ContractError>(
            ContractError::StakeOverflow,
        ),
        i128::MIN <= after - before <= i128::MAX && after - before != incentive_pool ==> r == Err::<
            MiningCampaign,
            ContractError,
        >(ContractError::InsufficientFunds),
        after - before == incentive_pool ==> r == Ok::<MiningCampaign, ContractError>(
            MiningCampaign {
                campaign_id: (counter + 1) as u64,
                creator: sponsor,
                token,
                incentive_pool,
                distributed: 0,
                start_timestamp: now,
                end_timestamp: (now + duration_secs) as u64,
                campaign_type,
                status: MiningCampaignStatus::Active,
                total_participation: 0,
                participant_count: 0,
            },
        ),
{
    let received = match after.checked_sub(before) {
        Some(x) => x,
        None => {
            return Err(ContractError::StakeOverflow);
        },
    };
    if received != incentive_pool {
        return Err(ContractError::InsufficientFunds);
    }
    Ok(MiningCampaign {
        campaign_id: counter + 1,
        creator: sponsor,
        token,
        incentive_pool,
        distributed: 0,
        start_timestamp: now,
        end_timestamp: now + duration_secs,
        campaign_type,
        status: MiningCampaignStatus::Active,
        total_participation: 0,
        participant_count: 0,
    })
}

/// The weight a participation counts for: 1 in a flat campaign.
pub open spec fn effective_weight(c: MiningCampaign, stake_weight: i128) -> int {
    if c.campaign_type == MiningCampaignType::FlatPerVoucher { 1 } else { stake_weight as int }
}

/// Record `stake_weight` (positive) of participation by a participant whose
/// weight so far is `prev`, at `now`, in an active campaign whose window
/// holds `now`. Returns the campaign and the participant's new weight; a
/// first participation counts one more participant.
pub fn record_participation(stored: Option<MiningCampaign>, stake_weight: i128, now: u64, prev: i128) -> (r: Result<
    (MiningCampaign, i128),
    ContractError,
>)
    requires
        stored is Some && prev == 0 ==> stored->0.participant_count < u32::MAX,
    ensures
        stake_weight <= 0 || stored is None ==> r == Err::<(MiningCampaign, i128), ContractError>(
            ContractError::InvalidAmount,
        ),
        stake_weight > 0 && stored is Some && (stored->0.status != MiningCampaignStatus::Active || now
            >= stored->0.end_timestamp || now < stored->0.start_timestamp) ==> r == Err::<
            (MiningCampaign, i128),
            ContractError,
        >(ContractError::InvalidStateTransition),
        stake_weight > 0 && stored is Some && stored->0.status == MiningCampaignStatus::Active && stored->0.start_timestamp
            <= now < stored->0.end_timestamp ==> {
            let c = stored->0;
            let w = effective_weight(c, stake_weight);
            &&& !(prev + w <= i128::MAX && c.total_participation + w <= i128::MAX) ==> r == Err::<
                (MiningCampaign, i128),
                ContractError,
            >(ContractError::StakeOverflow)
            &&& prev + w <= i128::MAX && c.total_participation + w <= i128::MAX ==> r == Ok::<
                (MiningCampaign, i128),
                ContractError,
            >(
                (
                    MiningCampaign {
                        participant_count: if prev == 0 { (c.participant_count + 1) as u32 } else { c.participant_count },
                        total_participation: (c.total_participation + w) as i128,
                        ..c
                    },
                    (prev + w) as i128,
                ),
            )
        },
        r is Ok ==> ({
            let c = stored->0;
            let (c2, weight) = r->Ok_0;
            &&& c.campaign_type != MiningCampaignType::FlatPerVoucher ==> weight == prev + stake_weight
                && c2.total_participation == c.total_participation + stake_weight
            &&& c.campaign_type == MiningCampaignType::FlatPerVoucher ==> weight == prev + 1
                && c2.total_participation == c.total_participation + 1
        }),
{
    if stake_weight <= 0 {
        return Err(ContractError::InvalidAmount);
    }
    let mut c = match stored {
        Some(c) => c,
        None => {
            return Err(ContractError::InvalidAmount);
        },
    };
    if c.status != MiningCampaignStatus::Active {
        return Err(ContractError::InvalidStateTransition);
    }
    if now >= c.end_timestamp {
        return Err(ContractError::InvalidStateTransition);
    }
    if now < c.start_timestamp {
        return Err(ContractError::InvalidStateTransition);
    }
    let w: i128 = match c.campaign_type {
        MiningCampaignType::FlatPerVoucher => 1,
        _ => stake_weight,
    };
    let new_weight = match prev.checked_add(w) {
        Some(x) => x,
        None => {
            return Err(ContractError::StakeOverflow);
        },
    };
    if prev == 0 {
        c.participant_count = c.participant_count + 1;
    }
    c.total_participation = match c.total_participation.checked_add(w) {
        Some(x) => x,
        None => {
            return Err(ContractError::StakeOverflow);
        },
    };
    Ok((c, new_weight))
}

/// A claim: the campaign to store, the amount paid and the participant's
/// new claimed total when something was paid.
#[derive(Clone, Copy, Debug, PartialEq, Eq, Structural)]
pub struct MiningClaim {
    pub campaign: MiningCampaign,
    pub payout: i128,
    pub claimed: Option<i128>,
    pub transfer: Option<Transfer>,
}

/// The campaign as seen at `now`: an active campaign past its end has ended.
pub open spec fn settled_campaign(c: MiningCampaign, now: u64) -> MiningCampaign {
    if c.status == MiningCampaignStatus::Active && now >= c.end_timestamp {
        MiningCampaign { status: MiningCampaignStatus::Ended, ..c }
    } else {
        c
    }
}

/// What a participant with weight `p` is entitled to from the pool.
pub open spec fn entitlement(c: MiningCampaign, p: i128) -> int {
    tdiv(p * c.incentive_pool, c.total_participation as int)
}

/// What a claim pays: the entitlement less what was claimed, capped by
/// what remains of the pool (a difference out of range counts as 0).
pub open spec fn claim_payout(c: MiningCampaign, p: i128, claimed: i128) -> int {
    let owed = entitlement(c, p) - claimed;
    let claimable = if i128::MIN <= owed <= i128::MAX { owed } else { 0 };
    let left = c.incentive_pool - c.distributed;
    let remaining = if i128::MIN <= left <= i128::MAX { left } else { 0 };
    if claimable <= 0 { 0 } else if claimable < remaining { claimable } else { remaining }
}

/// Claim the reward of `participant`, with weight `participation` who has
/// claimed `claimed` so far, from a campaign that has ended (an active one
/// past its end counts as ended and is stored so). Pays the entitlement
/// `participation * pool / total_participation` not yet claimed, capped by
/// what remains of the pool; pays nothing when nothing is owed.
pub fn claim_mining_reward(
    stored: Option<MiningCampaign>,
    participant: Address,
    now: u64,
    participation: i128,
    claimed: i128,
) -> (r: Result<
    MiningClaim,
    ContractError,
>)
    requires
        stored is Some ==> {
            let c = settled_campaign(stored->0, now);
            c.status == MiningCampaignStatus::Ended && participation != 0 && c.total_participation != 0 && i128::MIN
                <= participation * c.incentive_pool <= i128::MAX ==> {
                &&& !(c.total_participation == -1 && participation * c.incentive_pool == i128::MIN)
                &&& claim_payout(c, participation, claimed) > 0 ==> claimed + claim_payout(c, participation, claimed)
                    <= i128::MAX
            }
        },
    ensures
        stored is None ==> r == Err::<MiningClaim, ContractError>(ContractError::InvalidAmount),
        stored is Some ==> {
            let c = settled_campaign(stored->0, now);
            let pay = claim_payout(c, participation, claimed);
            &&& c.status != MiningCampaignStatus::Ended ==> r == Err::<MiningClaim, ContractError>(
                ContractError::InvalidStateTransition,
            )
            &&& c.status == MiningCampaignStatus::Ended && participation == 0 ==> r == Err::<MiningClaim, ContractError>(
                ContractError::InvalidAmount,
            )
            &&& c.status == MiningCampaignStatus::Ended && participation != 0 && c.total_participation == 0 ==> r
                == Err::<MiningClaim, ContractError>(ContractError::InsufficientFunds)
            &&& c.status == MiningCampaignStatus::Ended && participation != 0 && c.total_participation != 0 && !(
            i128::MIN <= participation * c.incentive_pool <= i128::MAX) ==> r == Err::<MiningClaim, ContractError>(
                ContractError::StakeOverflow,
            )
            &&& c.status == MiningCampaignStatus::Ended && participation != 0 && c.total_participation != 0 && i128::MIN
                <= participation * c.incentive_pool <= i128::MAX ==> {
                &&& pay <= 0 ==> r == Ok::<MiningClaim, ContractError>(
                    MiningClaim { campaign: c, payout: 0, claimed: None, transfer: None },
                )
                &&& pay > 0 && c.distributed + pay > i128::MAX ==> r == Err::<MiningClaim, ContractError>(
                    ContractError::StakeOverflow,
                )
                &&& pay > 0 && c.distributed + pay <= i128::MAX ==> r == Ok::<MiningClaim, ContractError>(
                    MiningClaim {
                        campaign: MiningCampaign { distributed: (c.distributed + pay) as i128, ..c },
                        payout: pay as i128,
                        claimed: Some((claimed + pay) as i128),
                        transfer: Some(Transfer { token: c.token, to: participant, amount: pay as i128 }),
                    },
                )
            }
        },
        r is Ok && stored->0.distributed <= stored->0.incentive_pool ==> r->Ok_0.campaign.distributed
            <= r->Ok_0.campaign.incentive_pool,
{
    let mut c = match stored {
        Some(c) => c,
        None => {
            return Err(ContractError::InvalidAmount);
        },
    };
    if c.status == MiningCampaignStatus::Active && now >= c.end_timestamp {
        c.status = MiningCampaignStatus::Ended;
    }
    if c.status != MiningCampaignStatus::Ended {
        return Err(ContractError::InvalidStateTransition);
    }
    if participation == 0 {
        return Err(ContractError::InvalidAmount);
    }
    let total = c.total_participation;
    if total == 0 {
        return Err(ContractError::InsufficientFunds);
    }
    let product = match participation.checked_mul(c.incentive_pool) {
        Some(x) => x,
        None => {
            return Err(ContractError::StakeOverflow);
        },
    };
    proof {
        lemma_tdiv_bounds(product as int, total as int);
    }
    let entitled = product / total;
    let claimable = match entitled.checked_sub(claimed) {
        Some(x) => x,
        None => 0,
    };
    if claimable <= 0 {
        return Ok(MiningClaim { campaign: c, payout: 0, claimed: None, transfer: None });
    }
    let remaining = match c.incentive_pool.checked_sub(c.distributed) {
        Some(x) => x,
        None => 0,
    };
    let payout = if claimable < remaining { claimable } else { remaining };
    if payout <= 0 {
        return Ok(MiningClaim { campaign: c, payout: 0, claimed: None, transfer: None });
    }
    let distributed = match c.distributed.checked_add(payout) {
        Some(x) => x,
        None => {
            return Err(ContractError::StakeOverflow);
        },
    };
    c.distributed = distributed;
    Ok(MiningClaim { campaign: c, payout, claimed: Some(claimed + payout), transfer: Some(Transfer { token: c.token, to: participant, amount: payout }) })
}

/// End an active campaign early (approved by the admins): it is Ended as
/// of `now`, which closes participation.
pub fn end_mining_campaign(stored: Option<MiningCampaign>, now: u64) -> (r: Result<MiningCampaign, ContractError>)
    ensures
        stored is None ==> r == Err::<MiningCampaign, ContractError>(ContractError::InvalidAmount),
        stored is Some && stored->0.status != MiningCampaignStatus::Active ==> r == Err::<MiningCampaign, ContractError>(
            ContractError::InvalidStateTransition,
        ),
        stored is Some && stored->0.status == MiningCampaignStatus::Active ==> r == Ok::<MiningCampaign, ContractError>(
            MiningCampaign { status: MiningCampaignStatus::Ended, end_timestamp: now, ..stored->0 },
        ),
{
    match stored {
        None => Err(ContractError::InvalidAmount),
        Some(c) => {
            if c.status != MiningCampaignStatus::Active {
                Err(ContractError::InvalidStateTransition)
            } else {
                Ok(MiningCampaign { status: MiningCampaignStatus::Ended, end_timestamp: now, ..c })
            }
        },
    }
}

/// Cancel an active campaign (approved by the admins): it is Cancelled and
/// what was not distributed goes back to its creator.
pub fn cancel_mining_campaign(stored: Option<MiningCampaign>) -> (r: Result<(MiningCampaign, Option<Transfer>), ContractError>)
    ensures
        stored is None ==> r == Err::<(MiningCampaign, Option<Transfer>), ContractError>(ContractError::InvalidAmount),
        stored is Some && stored->0.status != MiningCampaignStatus::Active ==> r == Err::<
            (MiningCampaign, Option<Transfer>),
            ContractError,
        >(ContractError::InvalidStateTransition),
        stored is Some && stored->0.status == MiningCampaignStatus::Active ==> {
            let c = stored->0;
            let left = c.incentive_pool - c.distributed;
            let refund = if i128::MIN <= left <= i128::MAX { left } else { 0 };
            r == Ok::<(MiningCampaign, Option<Transfer>), ContractError>(
                (
                    MiningCampaign { status: MiningCampaignStatus::Cancelled, ..c },
                    if refund > 0 {
                        Some(Transfer { token: c.token, to: c.creator, amount: refund as i128 })
                    } else {
                        None
                    },
                ),
            )
        },
{
    let mut c = match stored {
        None => {
            return Err(ContractError::InvalidAmount);
        },
        Some(c) => c,
    };
    if c.status != MiningCampaignStatus::Active {
        return Err(ContractError::InvalidStateTransition);
    }
    c.status = MiningCampaignStatus::Cancelled;
    let refund = match c.incentive_pool.checked_sub(c.distributed) {
        Some(x) => x,
        None => 0,
    };
    let transfer = if refund > 0 {
        Some(Transfer { token: c.token, to: c.creator, amount: refund })
    } else {
        None
    };
    Ok((c, transfer))
}

/// Participation follows the stake: in a proportional-stake or
/// reputation-weighted campaign a participation counts its full stake
/// weight, and only in a flat campaign does it count one whatever its stake;
/// so outside flat campaigns, two participations differing in stake weight
/// count differently.
pub proof fn lemma_participation_follows_stake(c: MiningCampaign, w1: i128, w2: i128)
    ensures
        c.campaign_type == MiningCampaignType::ProportionalStake ==> effective_weight(c, w1) == w1,
        c.campaign_type == MiningCampaignType::ReputationWeighted ==> effective_weight(c, w1) == w1,
        c.campaign_type == MiningCampaignType::FlatPerVoucher ==> effective_weight(c, w1) == 1,
        c.campaign_type != MiningCampaignType::FlatPerVoucher && w1 != w2 ==> effective_weight(c, w1) != effective_weight(
            c,
            w2,
        ),
{
}

} // verus!
