use quorum_credit::errors::ContractError;
use quorum_credit::prediction_market::{
    cancel_market, claim_payout, create_market, get_prediction_accuracy, place_prediction, resolve_market,
    update_accuracy, MarketPosition, MarketStatus, PredictionMarket, PredictionSide,
};
use quorum_credit::types::Address;

fn description() -> String {
    String::from("yield_bps > 300 in 6 months")
}

fn market(now: u64, outcome: Option<bool>, status: MarketStatus) -> PredictionMarket {
    PredictionMarket {
        id: 1,
        description: description(),
        rate_threshold_bps: 300,
        closes_at: now + 3600,
        resolves_at: now + 7200,
        total_yes_stake: 0,
        total_no_stake: 0,
        outcome,
        status,
    }
}

#[test]
fn test_create_market() {
    // With no counter stored, the first market takes id 1.
    let m = create_market(None, description(), 300, 100, 200, 0).unwrap();
    assert_eq!(m.id, 1);
    assert_eq!(m.status, MarketStatus::Open);
    assert_eq!(m.total_yes_stake, 0);
    let m2 = create_market(Some(m.id), description(), 300, 100, 200, 0).unwrap();
    assert_eq!(m2.id, 2);
}

#[test]
fn test_prediction_accuracy_default() {
    let acc = get_prediction_accuracy(None);
    assert_eq!(acc.total, 0);
    assert_eq!(acc.correct, 0);
}

#[test]
fn test_invalid_amount_for_zero_stake() {
    let now = 0;
    let participant = Address::account(1, 1);
    let result = place_prediction(Some(market(now, None, MarketStatus::Open)), false, participant, PredictionSide::Yes, 0, now);
    assert!(matches!(result, Err(ContractError::InvalidAmount)));
}

#[test]
fn test_cannot_predict_on_resolved_market() {
    let now = 0;
    let participant = Address::account(1, 1);
    let result =
        place_prediction(Some(market(now, Some(true), MarketStatus::Resolved)), false, participant, PredictionSide::Yes, 1000, now);
    assert!(matches!(result, Err(ContractError::VotingPeriodEnded)));
}

#[test]
fn market_windows_must_be_in_order_and_in_the_future() {
    assert!(matches!(create_market(None, description(), 300, 100, 200, 100), Err(ContractError::InvalidAmount)));
    assert!(matches!(create_market(None, description(), 300, 100, 100, 0), Err(ContractError::InvalidAmount)));
}

#[test]
fn prediction_refusals() {
    let p = Address::account(1, 1);
    assert!(matches!(place_prediction(None, false, p, PredictionSide::Yes, 10, 0), Err(ContractError::ProposalNotFound)));
    assert!(matches!(
        place_prediction(Some(market(0, None, MarketStatus::Open)), false, p, PredictionSide::Yes, 10, 3600),
        Err(ContractError::VotingPeriodEnded)
    ));
    assert!(matches!(
        place_prediction(Some(market(0, None, MarketStatus::Open)), true, p, PredictionSide::Yes, 10, 0),
        Err(ContractError::AlreadyVoted)
    ));
}

#[test]
fn winners_share_the_pot_less_fee_and_losers_forfeit() {
    let yes = Address::account(1, 1);
    let no = Address::account(2, 2);
    let (m, yes_pos) = place_prediction(Some(market(0, None, MarketStatus::Open)), false, yes, PredictionSide::Yes, 300, 0).unwrap();
    let (m, no_pos) = place_prediction(Some(m), false, no, PredictionSide::No, 700, 0).unwrap();
    assert_eq!(m.total_yes_stake, 300);
    assert_eq!(m.total_no_stake, 700);

    // Claims are refused before resolution.
    let open = Some(market(0, None, MarketStatus::Open));
    assert!(matches!(claim_payout(&open, Some(yes_pos)), Err(ContractError::InvalidStateTransition)));

    let resolved = Some(resolve_market(Some(m), true).unwrap());
    let win = claim_payout(&resolved, Some(yes_pos)).unwrap();
    // Gross share: 300 * 1000 / 300 = 1000; fee 2% = 20.
    assert_eq!(win.payout, 980);
    assert_eq!(win.fee, 20);
    assert!(win.correct);
    assert!(win.position.claimed);
    let lose = claim_payout(&resolved, Some(no_pos)).unwrap();
    assert_eq!(lose.payout, 0);
    assert_eq!(lose.lost, 700);
    assert!(!lose.correct);
    assert!(matches!(claim_payout(&resolved, Some(win.position)), Err(ContractError::AlreadyRepaid)));
    assert!(matches!(claim_payout(&resolved, None), Err(ContractError::UnauthorizedCaller)));

    let acc = update_accuracy(None, win.correct, win.won, win.lost);
    assert_eq!(acc.total, 1);
    assert_eq!(acc.correct, 1);
    assert_eq!(acc.total_won, 980);
}

#[test]
fn cancelled_market_refunds_stake() {
    let p = Address::account(1, 1);
    let (m, pos) = place_prediction(Some(market(0, None, MarketStatus::Open)), false, p, PredictionSide::No, 50, 0).unwrap();
    let cancelled = cancel_market(Some(m)).unwrap();
    assert_eq!(cancelled.status, MarketStatus::Cancelled);
    let stored = Some(cancelled);
    let refund = claim_payout(&stored, Some(pos)).unwrap();
    assert_eq!(refund.payout, 50);
    assert_eq!(refund.fee, 0);
    let again = cancel_market(stored);
    assert!(matches!(again, Err(ContractError::InvalidStateTransition)));
    let pos2 = MarketPosition { participant: p, side: PredictionSide::Yes, stake: 1, claimed: false };
    assert!(!pos2.claimed);
}
