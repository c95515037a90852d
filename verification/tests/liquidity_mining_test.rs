use quorum_credit::errors::ContractError;
use quorum_credit::lending::Transfer;
use quorum_credit::liquidity_mining::{
    cancel_mining_campaign, claim_mining_reward, end_mining_campaign, open_mining_campaign, prepare_mining_campaign,
    record_participation, MiningCampaign, MiningCampaignStatus, MiningCampaignType,
};
use quorum_credit::types::Address;

fn sponsor() -> Address {
    Address::account(1, 1)
}

fn token() -> Address {
    Address::contract(7, 7)
}

fn campaign(kind: MiningCampaignType) -> MiningCampaign {
    open_mining_campaign(sponsor(), token(), 1_000, 100, kind, 10, 5_000, 6_000, 0).unwrap()
}

#[test]
fn preparing_and_opening_a_campaign() {
    assert_eq!(prepare_mining_campaign(0, 10, true, Some(sponsor())), Err(ContractError::InvalidAmount));
    assert_eq!(prepare_mining_campaign(10, 0, true, Some(sponsor())), Err(ContractError::InvalidAmount));
    assert_eq!(prepare_mining_campaign(10, 10, false, Some(sponsor())), Err(ContractError::InvalidToken));
    assert_eq!(prepare_mining_campaign(10, 10, true, None), Err(ContractError::InvalidAmount));
    assert_eq!(prepare_mining_campaign(10, 10, true, Some(sponsor())), Ok(sponsor()));

    let c = campaign(MiningCampaignType::ProportionalStake);
    assert_eq!(c.campaign_id, 1);
    assert_eq!(c.end_timestamp, 110);
    assert_eq!(c.status, MiningCampaignStatus::Active);
    // The deposit must have arrived in full.
    let short = open_mining_campaign(sponsor(), token(), 1_000, 100, MiningCampaignType::ProportionalStake, 10, 5_000, 5_999, 0);
    assert_eq!(short, Err(ContractError::InsufficientFunds));
}

#[test]
fn participation_within_the_window() {
    let c = campaign(MiningCampaignType::ProportionalStake);
    let (c, a) = record_participation(Some(c), 300, 20, 0).unwrap();
    assert_eq!(a, 300);
    assert_eq!(c.participant_count, 1);
    let (c, a) = record_participation(Some(c), 100, 30, a).unwrap();
    assert_eq!(a, 400);
    assert_eq!(c.participant_count, 1);
    assert_eq!(c.total_participation, 400);
    assert_eq!(record_participation(Some(c), 100, 110, 0), Err(ContractError::InvalidStateTransition));
    assert_eq!(record_participation(Some(c), 100, 5, 0), Err(ContractError::InvalidStateTransition));
    assert_eq!(record_participation(Some(c), 0, 30, 0), Err(ContractError::InvalidAmount));
    assert_eq!(record_participation(None, 5, 30, 0), Err(ContractError::InvalidAmount));
    // A flat campaign counts each participation as one.
    let flat = campaign(MiningCampaignType::FlatPerVoucher);
    let (flat, w) = record_participation(Some(flat), 9_999, 20, 0).unwrap();
    assert_eq!(w, 1);
    assert_eq!(flat.total_participation, 1);
}

#[test]
fn rewards_are_proportional_and_never_exceed_the_pool() {
    let c = campaign(MiningCampaignType::ProportionalStake);
    let (c, a) = record_participation(Some(c), 300, 20, 0).unwrap();
    let (c, b) = record_participation(Some(c), 100, 20, 0).unwrap();
    // Not yet ended.
    assert_eq!(claim_mining_reward(Some(c), sponsor(), 50, a, 0), Err(ContractError::InvalidStateTransition));
    let alice = Address::account(2, 2);
    let bob = Address::account(3, 3);
    let first = claim_mining_reward(Some(c), alice, 200, a, 0).unwrap();
    assert_eq!(first.payout, 750);
    assert_eq!(first.claimed, Some(750));
    assert_eq!(first.campaign.status, MiningCampaignStatus::Ended);
    assert_eq!(first.transfer, Some(Transfer { token: token(), to: alice, amount: 750 }));
    let second = claim_mining_reward(Some(first.campaign), bob, 200, b, 0).unwrap();
    assert_eq!(second.payout, 250);
    assert_eq!(second.campaign.distributed, 1_000);
    // Claiming again pays nothing.
    let again = claim_mining_reward(Some(second.campaign), alice, 200, a, 750).unwrap();
    assert_eq!(again.payout, 0);
    assert_eq!(again.transfer, None);
    assert!(again.campaign.distributed <= again.campaign.incentive_pool);
}

#[test]
fn ending_and_cancelling() {
    let c = campaign(MiningCampaignType::ProportionalStake);
    let ended = end_mining_campaign(Some(c), 50).unwrap();
    assert_eq!(ended.status, MiningCampaignStatus::Ended);
    assert_eq!(ended.end_timestamp, 50);
    assert_eq!(end_mining_campaign(Some(ended), 60), Err(ContractError::InvalidStateTransition));
    let (cancelled, refund) = cancel_mining_campaign(Some(c)).unwrap();
    assert_eq!(cancelled.status, MiningCampaignStatus::Cancelled);
    assert_eq!(refund, Some(Transfer { token: token(), to: sponsor(), amount: 1_000 }));
    assert_eq!(cancel_mining_campaign(Some(cancelled)), Err(ContractError::InvalidStateTransition));
    assert_eq!(cancel_mining_campaign(None), Err(ContractError::InvalidAmount));
}
