//! Prediction markets on interest rates.
//!
//! An admin creates a market; participants stake on YES or NO while it is
//! open; the oracle resolves it (or it is cancelled). Winners share the whole
//! pot in proportion to their stake, less a 2% protocol fee; losers forfeit;
//! a cancelled market refunds every stake. Each participant's accuracy is
//! tracked.
//!
//! Each operation takes the stored market / position / accuracy records and
//! returns the records to store and the amounts to move.
use vstd::prelude::*;
use crate::arith::{bps_of, tdiv};
use crate::errors::ContractError;
use crate::types::Address;

verus! {

/// Protocol fee on prediction market winnings, in basis points (2%).
pub const PREDICTION_MARKET_FEE_BPS: u32 = 200;

#[derive(Clone, Copy, Debug, PartialEq, Eq, Structural)]
pub enum PredictionSide {
    Yes,
    No,
}

#[derive(Clone, Copy, Debug, PartialEq, Eq, Structural)]
pub enum MarketStatus {
    Open,
    PendingResolution,
    Resolved,
    Cancelled,
}

/// An interest rate prediction market.
pub struct PredictionMarket {
    pub id: u64,
    pub description: String,
    pub rate_threshold_bps: u32,
    pub closes_at: u64,
    pub resolves_at: u64,
    pub total_yes_stake: i128,
    pub total_no_stake: i128,
    /// Resolution: `Some(true)` when YES won, `Some(false)` when NO won.
    pub outcome: Option<bool>,
    pub status: MarketStatus,
}

/// A participant's position in a market.
#[derive(Clone, Copy, Debug, PartialEq, Eq, Structural)]
pub struct MarketPosition {
    pub participant: Address,
    pub side: PredictionSide,
    pub stake: i128,
    pub claimed: bool,
}

/// Per-participant prediction statistics.
#[derive(Clone, Copy, Debug, PartialEq, Eq, Structural)]
pub struct PredictionAccuracy {
    pub total: u32,
    pub correct: u32,
    pub total_won: i128,
    pub total_lost: i128,
}

/// Create a market closing at `closes_at` and resolving at `resolves_at`;
/// both must be in the future, in that order. It takes the id after
/// `counter`.
pub fn create_market(
    counter: Option<u64>,
    description: String,
    rate_threshold_bps: u32,
    closes_at: u64,
    resolves_at: u64,
    now: u64,
) -> (r: Result<PredictionMarket, ContractError>)
    requires
        counter.unwrap_or(0) < u64::MAX,
    ensures
        (closes_at <= now || resolves_at <= closes_at) <==> r is Err,
        r is Err ==> r matches Err(ContractError::InvalidAmount),
        r matches Ok(m) ==> m.id == counter.unwrap_or(0) + 1 && m.description@ == description@
            && m.rate_threshold_bps == rate_threshold_bps && m.closes_at == closes_at && m.resolves_at == resolves_at
            && m.total_yes_stake == 0 && m.total_no_stake == 0 && m.outcome is None && m.status == MarketStatus::Open,
{
    if closes_at <= now || resolves_at <= closes_at {
        return Err(ContractError::InvalidAmount);
    }
    let id = match counter {
        Some(c) => c,
        None => 0,
    } + 1;
    Ok(PredictionMarket {
        id,
        description,
        rate_threshold_bps,
        closes_at,
        resolves_at,
        total_yes_stake: 0,
        total_no_stake: 0,
        outcome: None,
        status: MarketStatus::Open,
    })
}

/// Place a prediction: `stake` (positive) on `side` of an open market whose
/// window has not closed, for a participant without a position there
/// (`has_position`). Returns the updated market and the new position; the
/// stake is transferred from the participant to the contract.
pub fn place_prediction(
    stored: Option<PredictionMarket>,
    has_position: bool,
    participant: Address,
    side: PredictionSide,
    stake: i128,
    now: u64,
) -> (r: Result<(PredictionMarket, MarketPosition), ContractError>)
    requires
        stored matches Some(m) ==> m.total_yes_stake + stake <= i128::MAX && m.total_no_stake + stake <= i128::MAX,
    ensures
        stake <= 0 ==> r matches Err(ContractError::InvalidAmount),
        stake > 0 && stored is None ==> r matches Err(ContractError::ProposalNotFound),
        stake > 0 && stored is Some && (stored->0.status != MarketStatus::Open || now >= stored->0.closes_at)
            ==> r matches Err(ContractError::VotingPeriodEnded),
        stake > 0 && stored is Some && stored->0.status == MarketStatus::Open && now < stored->0.closes_at
            && has_position ==> r matches Err(ContractError::AlreadyVoted),
        stake > 0 && stored is Some && stored->0.status == MarketStatus::Open && now < stored->0.closes_at
            && !has_position ==> r is Ok,
        r matches Ok(res) ==> {
            let m = stored->0;
            &&& res.1 == (MarketPosition { participant, side, stake, claimed: false })
            &&& res.0.id == m.id && res.0.description@ == m.description@
            &&& res.0.rate_threshold_bps == m.rate_threshold_bps
            &&& res.0.closes_at == m.closes_at && res.0.resolves_at == m.resolves_at
            &&& res.0.outcome == m.outcome && res.0.status == m.status
            &&& res.0.total_yes_stake == (if side == PredictionSide::Yes { m.total_yes_stake + stake } else { m.total_yes_stake as int })
            &&& res.0.total_no_stake == (if side == PredictionSide::No { m.total_no_stake + stake } else { m.total_no_stake as int })
        },
{
    if stake <= 0 {
        return Err(ContractError::InvalidAmount);
    }
    let mut market = match stored {
        Some(m) => m,
        None => {
            return Err(ContractError::ProposalNotFound);
        },
    };
    if market.status != MarketStatus::Open {
        return Err(ContractError::VotingPeriodEnded);
    }
    if now >= market.closes_at {
        return Err(ContractError::VotingPeriodEnded);
    }
    if has_position {
        return Err(ContractError::AlreadyVoted);
    }
    match side {
        PredictionSide::Yes => market.total_yes_stake = market.total_yes_stake + stake,
        PredictionSide::No => market.total_no_stake = market.total_no_stake + stake,
    }
    Ok((market, MarketPosition { participant, side, stake, claimed: false }))
}

/// Resolve a market with the oracle's outcome; refused once resolved or cancelled.
pub fn resolve_market(stored: Option<PredictionMarket>, outcome: bool) -> (r: Result<PredictionMarket, ContractError>)
    ensures
        stored is None ==> r matches Err(ContractError::ProposalNotFound),
        stored is Some && (stored->0.status == MarketStatus::Resolved || stored->0.status == MarketStatus::Cancelled)
            ==> r matches Err(ContractError::InvalidStateTransition),
        r matches Ok(m) ==> m.status == MarketStatus::Resolved && m.outcome == Some(outcome) && m.id == stored->0.id
            && m.total_yes_stake == stored->0.total_yes_stake && m.total_no_stake == stored->0.total_no_stake
            && m.closes_at == stored->0.closes_at && m.resolves_at == stored->0.resolves_at,
        stored is Some && stored->0.status != MarketStatus::Resolved && stored->0.status != MarketStatus::Cancelled
            ==> r is Ok,
{
    let mut market = match stored {
        Some(m) => m,
        None => {
            return Err(ContractError::ProposalNotFound);
        },
    };
    if market.status == MarketStatus::Resolved || market.status == MarketStatus::Cancelled {
        return Err(ContractError::InvalidStateTransition);
    }
    market.outcome = Some(outcome);
    market.status = MarketStatus::Resolved;
    Ok(market)
}

/// Cancel a market so every stake can be refunded; refused once resolved or cancelled.
pub fn cancel_market(stored: Option<PredictionMarket>) -> (r: Result<PredictionMarket, ContractError>)
    ensures
        stored is None ==> r matches Err(ContractError::ProposalNotFound),
        stored is Some && (stored->0.status == MarketStatus::Resolved || stored->0.status == MarketStatus::Cancelled)
            ==> r matches Err(ContractError::InvalidStateTransition),
        r matches Ok(m) ==> m.status == MarketStatus::Cancelled && m.outcome == stored->0.outcome
            && m.id == stored->0.id && m.total_yes_stake == stored->0.total_yes_stake
            && m.total_no_stake == stored->0.total_no_stake,
        stored is Some && stored->0.status != MarketStatus::Resolved && stored->0.status != MarketStatus::Cancelled
            ==> r is Ok,
{
    let mut market = match stored {
        Some(m) => m,
        None => {
            return Err(ContractError::ProposalNotFound);
        },
    };
    if market.status == MarketStatus::Resolved || market.status == MarketStatus::Cancelled {
        return Err(ContractError::InvalidStateTransition);
    }
    market.status = MarketStatus::Cancelled;
    Ok(market)
}

/// Whether a position on `side` won a market resolved with `outcome`.
pub open spec fn position_won(outcome: Option<bool>, side: PredictionSide) -> bool {
    match outcome {
        Some(true) => side == PredictionSide::Yes,
        Some(false) => side == PredictionSide::No,
        None => false,
    }
}

/// The gross share of the pot of a winning stake.
pub open spec fn gross_share(stake: int, yes: int, no: int, outcome: Option<bool>) -> int {
    let winning = if outcome == Some(true) { yes } else { no };
    if winning == 0 { 0 } else { tdiv(stake * (yes + no), winning) }
}

/// The net payout of a winning stake: gross share less the protocol fee.
pub open spec fn net_share(stake: int, yes: int, no: int, outcome: Option<bool>) -> int {
    let gross = gross_share(stake, yes, no, outcome);
    gross - bps_of(gross, PREDICTION_MARKET_FEE_BPS as int)
}

/// The fee kept from a winning stake.
pub open spec fn fee_share(stake: int, yes: int, no: int, outcome: Option<bool>) -> int {
    bps_of(gross_share(stake, yes, no, outcome), PREDICTION_MARKET_FEE_BPS as int)
}

/// Result of a claim: the position to store (now claimed), the amount paid
/// to the participant, the fee for the treasury, and the accuracy update
/// `(correct, won, lost)` to record.
#[derive(Clone, Copy, Debug, PartialEq, Eq, Structural)]
pub struct Claim {
    pub position: MarketPosition,
    pub payout: i128,
    pub fee: i128,
    pub correct: bool,
    pub won: i128,
    pub lost: i128,
}

/// Whether the payout arithmetic of a claim stays within `i128`.
pub open spec fn claim_fits(m: PredictionMarket, stake: i128) -> bool {
    &&& i128::MIN <= m.total_yes_stake + m.total_no_stake <= i128::MAX
    &&& i128::MIN <= stake * (m.total_yes_stake + m.total_no_stake) <= i128::MAX
    &&& (if m.outcome == Some(true) { m.total_yes_stake } else { m.total_no_stake }) == -1
        ==> stake * (m.total_yes_stake + m.total_no_stake) != i128::MIN
    &&& i128::MIN <= gross_share(stake as int, m.total_yes_stake as int, m.total_no_stake as int, m.outcome) * 200
        <= i128::MAX
}

/// Claim the payout of a position in a resolved or cancelled market:
/// a cancelled market refunds the stake; a losing position gets 0; a winning
/// one gets its proportional share of the whole pot less the 2% fee.
pub fn claim_payout(stored: &Option<PredictionMarket>, position: Option<MarketPosition>) -> (r: Result<Claim, ContractError>)
    requires
        stored matches Some(m) ==> position matches Some(p) ==> claim_fits(*m, p.stake),
    ensures
        stored is None ==> r matches Err(ContractError::ProposalNotFound),
        stored is Some && stored->0.status != MarketStatus::Resolved && stored->0.status != MarketStatus::Cancelled
            ==> r matches Err(ContractError::InvalidStateTransition),
        stored is Some && (stored->0.status == MarketStatus::Resolved || stored->0.status == MarketStatus::Cancelled)
            ==> {
            &&& (position is None ==> r matches Err(ContractError::UnauthorizedCaller))
            &&& (position is Some && position->0.claimed ==> r matches Err(ContractError::AlreadyRepaid))
            &&& (position is Some && !position->0.claimed ==> r is Ok)
        },
        r matches Ok(c) ==> {
            let m = stored->0;
            let p = position->0;
            let (yes, no) = (m.total_yes_stake as int, m.total_no_stake as int);
            &&& c.position == (MarketPosition { claimed: true, ..p })
            &&& m.status == MarketStatus::Cancelled ==> c.payout == p.stake && c.fee == 0 && c.correct
                && c.won == p.stake && c.lost == 0
            &&& m.status == MarketStatus::Resolved && !position_won(m.outcome, p.side) ==> c.payout == 0 && c.fee == 0
                && !c.correct && c.won == 0 && c.lost == p.stake
            &&& m.status == MarketStatus::Resolved && position_won(m.outcome, p.side) ==> c.payout == net_share(
                p.stake as int,
                yes,
                no,
                m.outcome,
            ) && c.fee == fee_share(p.stake as int, yes, no, m.outcome) && c.correct && c.won == c.payout
                && c.lost == 0
        },
{
    let market = match stored {
        Some(m) => m,
        None => {
            return Err(ContractError::ProposalNotFound);
        },
    };
    if market.status != MarketStatus::Resolved && market.status != MarketStatus::Cancelled {
        return Err(ContractError::InvalidStateTransition);
    }
    let mut pos = match position {
        Some(p) => p,
        None => {
            return Err(ContractError::UnauthorizedCaller);
        },
    };
    if pos.claimed {
        return Err(ContractError::AlreadyRepaid);
    }
    if market.status == MarketStatus::Cancelled {
        pos.claimed = true;
        return Ok(Claim { position: pos, payout: pos.stake, fee: 0, correct: true, won: pos.stake, lost: 0 });
    }
    let won = match market.outcome {
        Some(true) => pos.side == PredictionSide::Yes,
        Some(false) => pos.side == PredictionSide::No,
        None => false,
    };
    if !won {
        pos.claimed = true;
        return Ok(Claim { position: pos, payout: 0, fee: 0, correct: false, won: 0, lost: pos.stake });
    }
    let winning_stake = match market.outcome {
        Some(true) => market.total_yes_stake,
        _ => market.total_no_stake,
    };
    let total_pot = market.total_yes_stake + market.total_no_stake;
    let (net, fee) = if winning_stake == 0 {
        (0i128, 0i128)
    } else {
        let gross = pos.stake * total_pot / winning_stake;
        assert(gross == gross_share(pos.stake as int, market.total_yes_stake as int, market.total_no_stake as int, market.outcome));
        let fee = gross * (PREDICTION_MARKET_FEE_BPS as i128) / 10_000;
        (gross - fee, fee)
    };
    pos.claimed = true;
    Ok(Claim { position: pos, payout: net, fee, correct: true, won: net, lost: 0 })
}

/// Accuracy of a participant with no recorded predictions.
pub open spec fn no_accuracy() -> PredictionAccuracy {
    PredictionAccuracy { total: 0, correct: 0, total_won: 0, total_lost: 0 }
}

/// The stored accuracy record, or zeroes.
pub fn get_prediction_accuracy(stored: Option<PredictionAccuracy>) -> (a: PredictionAccuracy)
    ensures
        a == stored.unwrap_or(no_accuracy()),
{
    match stored {
        Some(a) => a,
        None => PredictionAccuracy { total: 0, correct: 0, total_won: 0, total_lost: 0 },
    }
}

/// Record one settled prediction in a participant's accuracy.
pub fn update_accuracy(stored: Option<PredictionAccuracy>, correct: bool, won: i128, lost: i128) -> (a: PredictionAccuracy)
    requires
        stored.unwrap_or(no_accuracy()).total < u32::MAX,
        stored.unwrap_or(no_accuracy()).correct < u32::MAX,
        i128::MIN <= stored.unwrap_or(no_accuracy()).total_won + won <= i128::MAX,
        i128::MIN <= stored.unwrap_or(no_accuracy()).total_lost + lost <= i128::MAX,
    ensures
        ({
            let old_a = stored.unwrap_or(no_accuracy());
            &&& a.total == old_a.total + 1
            &&& a.correct == (if correct { old_a.correct + 1 } else { old_a.correct as int })
            &&& a.total_won == old_a.total_won + won
            &&& a.total_lost == old_a.total_lost + lost
        }),
{
    let mut acc = get_prediction_accuracy(stored);
    acc.total = acc.total + 1;
    if correct {
        acc.correct = acc.correct + 1;
    }
    acc.total_won = acc.total_won + won;
    acc.total_lost = acc.total_lost + lost;
    acc
}

/// A winner never receives more than the whole pot when the winning side's
/// total includes its stake (non-negative stakes).
pub proof fn lemma_share_within_pot(stake: int, yes: int, no: int, outcome: Option<bool>)
    requires
        0 <= stake,
        0 <= yes,
        0 <= no,
        outcome == Some(true) ==> stake <= yes,
        outcome != Some(true) ==> stake <= no,
    ensures
        0 <= gross_share(stake, yes, no, outcome) <= yes + no,
        0 <= net_share(stake, yes, no, outcome) <= gross_share(stake, yes, no, outcome),
{
    let winning = if outcome == Some(true) { yes } else { no };
    if winning != 0 {
        assert(0 <= stake * (yes + no)) by (nonlinear_arith)
            requires 0 <= stake, 0 <= yes, 0 <= no;
        assert(stake * (yes + no) <= winning * (yes + no)) by (nonlinear_arith)
            requires 0 <= stake <= winning, 0 <= yes + no;
        assert(stake * (yes + no) / winning <= yes + no) by (nonlinear_arith)
            requires 0 <= stake * (yes + no) <= winning * (yes + no), winning > 0;
        assert(0 <= stake * (yes + no) / winning) by (nonlinear_arith)
            requires 0 <= stake * (yes + no), winning > 0;
        let g = gross_share(stake, yes, no, outcome);
        assert(0 <= g * 200 / 10_000 <= g) by (nonlinear_arith)
            requires 0 <= g;
    }
}

} // verus!
