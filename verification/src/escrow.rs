//! Repayments held in escrow until the registered oracle verifies them.
//!
//! On approval the loan is repaid and each voucher in the loan's token gets
//! back their stake with a share of the yield, raised for long-standing
//! vouches, plus a liquidity-mining reward; on rejection the escrowed
//! amount goes back to the borrower.
use vstd::prelude::*;
use crate::QuorumCreditContract;
use crate::arith::{lemma_tdiv_bounds, tdiv};
use crate::errors::ContractError;
use crate::lending::{status_advances, positive_stakes, stakes_fit, sum_token_stake, token_stake, EscrowStatus, LoanRecord, LoanStatus, Transfer, VouchRecord};
use crate::types::Address;

verus! {

/// Seconds in a day.
pub const DAY_SECS: u64 = 86_400;

/// Yield multiplier of a vouch by its age at disbursement, in basis
/// points: 150% from 30 days, 125% from 7 days, 100% below.
pub open spec fn age_multiplier_bps(age_secs: int) -> int {
    if age_secs >= 30 * 86_400 {
        15_000
    } else if age_secs >= 7 * 86_400 {
        12_500
    } else {
        10_000
    }
}

/// Age of a vouch at disbursement (0 when it postdates it).
pub open spec fn vouch_age(disbursed: u64, vouched: u64) -> int {
    if disbursed >= vouched { disbursed - vouched } else { 0 }
}

/// A voucher's yield share before the age bonus.
pub open spec fn base_share(total_yield: int, stake: int, total: int) -> int {
    if total > 0 { tdiv(total_yield * stake, total) } else { 0 }
}

/// A voucher's share with the age bonus.
pub open spec fn tiered_share(l: LoanRecord, v: VouchRecord, total: int) -> int {
    tdiv(base_share(l.total_yield as int, v.stake as int, total) * age_multiplier_bps(vouch_age(l.disbursement_timestamp, v.vouch_timestamp)), 10_000)
}

/// A voucher's liquidity-mining reward.
pub open spec fn mining_reward(stake: int, rate_bps: u32) -> int {
    if rate_bps > 0 { tdiv(stake * rate_bps, 10_000) } else { 0 }
}

/// What each vouch in the loan's token receives on approval, in vouch
/// order: stake, tiered yield share and mining reward.
pub open spec fn oracle_payouts(l: LoanRecord, vs: Seq<VouchRecord>, total: int, rate_bps: u32) -> Seq<Transfer>
    decreases vs.len(),
{
    if vs.len() == 0 {
        Seq::empty()
    } else {
        let rest = oracle_payouts(l, vs.drop_last(), total, rate_bps);
        let v = vs.last();
        if v.token == l.token_address {
            rest.push(Transfer {
                token: l.token_address,
                to: v.voucher,
                amount: (v.stake + tiered_share(l, v, total) + mining_reward(v.stake as int, rate_bps)) as i128,
            })
        } else {
            rest
        }
    }
}

/// Whether every payout amount on approval stays within `i128`.
pub open spec fn payouts_fit(l: LoanRecord, vs: Seq<VouchRecord>, rate_bps: u32) -> bool {
    let total = token_stake(vs, l.token_address);
    &&& positive_stakes(vs)
    &&& stakes_fit(vs)
    &&& forall|i: int|
        0 <= i < vs.len() && #[trigger] vs[i].token == l.token_address ==> {
            &&& i128::MIN <= l.total_yield * vs[i].stake <= i128::MAX
            &&& i128::MIN <= base_share(l.total_yield as int, vs[i].stake as int, total) * 15_000 <= i128::MAX
            &&& i128::MIN <= vs[i].stake * rate_bps <= i128::MAX
            &&& i128::MIN <= vs[i].stake + tiered_share(l, vs[i], total) <= i128::MAX
            &&& i128::MIN <= vs[i].stake + tiered_share(l, vs[i], total) + mining_reward(vs[i].stake as int, rate_bps)
                <= i128::MAX
        }
}

/// The outcome of an oracle's decision: the loan to store, the transfers
/// from the contract, the borrower's new repayment count when the
/// repayment was approved, and which of the borrower's records to remove
/// (the active-loan link, the vouches, the escrowed amount).
pub struct OracleOutcome {
    pub loan: LoanRecord,
    pub transfers: Vec<Transfer>,
    pub repayment_count: Option<u32>,
    pub clear_active_loan: bool,
    pub clear_vouches: bool,
    pub clear_escrow: bool,
}

fn oracle_payout_plan(l: LoanRecord, vs: &Vec<VouchRecord>, rate_bps: u32) -> (out: Vec<Transfer>)
    requires
        payouts_fit(l, vs@, rate_bps),
    ensures
        out@ == oracle_payouts(l, vs@, token_stake(vs@, l.token_address), rate_bps),
{
    let token = l.token_address;
    let total = sum_token_stake(vs, token);
    let mut out: Vec<Transfer> = Vec::new();
    let mut i: usize = 0;
    while i < vs.len()
        invariant
            i <= vs@.len(),
            total == token_stake(vs@, token),
            token == l.token_address,
            payouts_fit(l, vs@, rate_bps),
            out@ == oracle_payouts(l, vs@.subrange(0, i as int), total as int, rate_bps),
        decreases vs@.len() - i,
    {
        let v = vs[i];
        assert(vs@.subrange(0, i + 1).drop_last() == vs@.subrange(0, i as int));
        assert(vs@.subrange(0, i + 1).last() == vs@[i as int]);
        if v.token == token {
            assert(vs@[i as int].token == l.token_address);
            let age = l.disbursement_timestamp.saturating_sub(v.vouch_timestamp);
            let mult: i128 = if age >= 30 * DAY_SECS {
                15_000
            } else if age >= 7 * DAY_SECS {
                12_500
            } else {
                10_000
            };
            let base = if total > 0 {
                proof {
                    lemma_tdiv_bounds(l.total_yield * v.stake, total as int);
                }
                l.total_yield * v.stake / total
            } else {
                0
            };
            proof {
                crate::arith::lemma_mul_within(base as int, mult as int, 15_000);
                lemma_tdiv_bounds(base * mult, 10_000);
            }
            let tiered = base * mult / 10_000;
            let mining = if rate_bps > 0 {
                proof {
                    lemma_tdiv_bounds(v.stake * rate_bps, 10_000);
                }
                v.stake * (rate_bps as i128) / 10_000
            } else {
                0
            };
            out.push(Transfer { token, to: v.voucher, amount: v.stake + tiered + mining });
        }
        i = i + 1;
    }
    assert(vs@.subrange(0, vs@.len() as int) == vs@);
    out
}

impl QuorumCreditContract {
    /// The registered oracle's decision on the escrowed repayment of the
    /// borrower's active loan (`stored`; the oracle has signed). Refused unless
    /// `oracle` is the registered oracle, there is an active loan, its escrow is
    /// pending and its token is allowed. Approved: the escrow is released, the
    /// loan is Repaid at `now`, each voucher in the loan's token is paid, and
    /// the repayment count grows by one. Rejected: the escrow is rejected, the
    /// escrowed amount is taken off the amount repaid and refunded to the
    /// borrower when positive.
    pub fn verify_repayment(
        oracle: Address,
        registered: Option<Address>,
        stored: Option<LoanRecord>,
        approved: bool,
        escrowed: i128,
        token_allowed: bool,
        now: u64,
        vouches: &Vec<VouchRecord>,
        mining_rate_bps: u32,
        repayment_count: u32,
    ) -> (r: Result<OracleOutcome, ContractError>)
        requires
            stored is Some && stored->0.escrow_status == EscrowStatus::Pending && token_allowed && registered == Some(oracle)
                ==> if approved {
                payouts_fit(stored->0, vouches@, mining_rate_bps) && repayment_count < u32::MAX
            } else {
                i128::MIN <= stored->0.amount_repaid - escrowed <= i128::MAX
            },
        ensures
            r is Ok && stored->0.status == LoanStatus::Active ==> status_advances(stored->0.status, r->Ok_0.loan.status),
            registered != Some(oracle) ==> r == Err::<OracleOutcome, ContractError>(ContractError::OracleUnauthorized),
            registered == Some(oracle) && stored is None ==> r == Err::<OracleOutcome, ContractError>(
                ContractError::NoActiveLoan,
            ),
            registered == Some(oracle) && stored is Some && stored->0.escrow_status != EscrowStatus::Pending ==> r == Err::<
                OracleOutcome,
                ContractError,
            >(ContractError::NoEscrowFound),
            registered == Some(oracle) && stored is Some && stored->0.escrow_status == EscrowStatus::Pending && !token_allowed
                ==> r == Err::<OracleOutcome, ContractError>(ContractError::InvalidToken),
            registered == Some(oracle) && stored is Some && stored->0.escrow_status == EscrowStatus::Pending && token_allowed
                ==> (r matches Ok(o) && {
                let l = stored->0;
                if approved {
                    &&& o.loan == (LoanRecord {
                        escrow_status: EscrowStatus::Released,
                        status: LoanStatus::Repaid,
                        repayment_timestamp: Some(now),
                        ..l
                    })
                    &&& o.transfers@ == oracle_payouts(l, vouches@, token_stake(vouches@, l.token_address), mining_rate_bps)
                    &&& o.repayment_count == Some((repayment_count + 1) as u32)
                    &&& o.clear_active_loan && o.clear_vouches && o.clear_escrow
                } else {
                    &&& o.loan == (LoanRecord {
                        escrow_status: EscrowStatus::Rejected,
                        amount_repaid: (l.amount_repaid - escrowed) as i128,
                        ..l
                    })
                    &&& o.transfers@ == (if escrowed > 0 {
                        seq![Transfer { token: l.token_address, to: l.borrower, amount: escrowed }]
                    } else {
                        Seq::empty()
                    })
                    &&& o.repayment_count is None
                    &&& !o.clear_active_loan && !o.clear_vouches && o.clear_escrow
                }
            }),
    {
        let registered_oracle = match registered {
            Some(a) => a,
            None => {
                return Err(ContractError::OracleUnauthorized);
            },
        };
        if oracle != registered_oracle {
            return Err(ContractError::OracleUnauthorized);
        }
        let mut loan = match stored {
            Some(l) => l,
            None => {
                return Err(ContractError::NoActiveLoan);
            },
        };
        if loan.escrow_status != EscrowStatus::Pending {
            return Err(ContractError::NoEscrowFound);
        }
        if !token_allowed {
            return Err(ContractError::InvalidToken);
        }
        if approved {
            let transfers = oracle_payout_plan(loan, vouches, mining_rate_bps);
            loan.escrow_status = EscrowStatus::Released;
            loan.status = LoanStatus::Repaid;
            loan.repayment_timestamp = Some(now);
            Ok(
                OracleOutcome {
                    loan,
                    transfers,
                    repayment_count: Some(repayment_count + 1),
                    clear_active_loan: true,
                    clear_vouches: true,
                    clear_escrow: true,
                },
            )
        } else {
            loan.escrow_status = EscrowStatus::Rejected;
            loan.amount_repaid = loan.amount_repaid - escrowed;
            let mut transfers: Vec<Transfer> = Vec::new();
            if escrowed > 0 {
                transfers.push(Transfer { token: loan.token_address, to: loan.borrower, amount: escrowed });
            }
            Ok(
                OracleOutcome {
                    loan,
                    transfers,
                    repayment_count: None,
                    clear_active_loan: false,
                    clear_vouches: false,
                    clear_escrow: true,
                },
            )
        }
    }
}

proof fn lemma_stake_within_total(vs: Seq<VouchRecord>, token: Address, i: int)
    requires
        positive_stakes(vs),
        0 <= i < vs.len(),
        vs[i].token == token,
    ensures
        token_stake(vs, token) >= vs[i].stake,
    decreases vs.len(),
{
    let rest = vs.drop_last();
    assert(positive_stakes(rest)) by {
        assert forall|j: int| 0 <= j < rest.len() implies #[trigger] rest[j].stake > 0 by {
            assert(rest[j] == vs[j]);
        }
    }
    if i < vs.len() - 1 {
        assert(rest[i] == vs[i]);
        lemma_stake_within_total(rest, token, i);
        lemma_stake_nonneg(rest, token);
        assert(vs.last().stake > 0);
    } else {
        lemma_stake_nonneg(rest, token);
    }
}

proof fn lemma_stake_nonneg(vs: Seq<VouchRecord>, token: Address)
    requires
        positive_stakes(vs),
    ensures
        token_stake(vs, token) >= 0,
    decreases vs.len(),
{
    if vs.len() > 0 {
        let rest = vs.drop_last();
        assert(positive_stakes(rest)) by {
            assert forall|j: int| 0 <= j < rest.len() implies #[trigger] rest[j].stake > 0 by {
                assert(rest[j] == vs[j]);
            }
        }
        lemma_stake_nonneg(rest, token);
        assert(vs.last().stake > 0);
    }
}

proof fn lemma_payouts_in_vouch_order(l: LoanRecord, vs: Seq<VouchRecord>, total: int, rate_bps: u32)
    requires
        forall|i: int| 0 <= i < vs.len() ==> #[trigger] vs[i].token == l.token_address,
    ensures
        oracle_payouts(l, vs, total, rate_bps).len() == vs.len(),
        forall|i: int|
            0 <= i < vs.len() ==> #[trigger] oracle_payouts(l, vs, total, rate_bps)[i] == (Transfer {
                token: l.token_address,
                to: vs[i].voucher,
                amount: (vs[i].stake + tiered_share(l, vs[i], total) + mining_reward(vs[i].stake as int, rate_bps)) as i128,
            }),
    decreases vs.len(),
{
    if vs.len() > 0 {
        let rest = vs.drop_last();
        assert forall|i: int| 0 <= i < rest.len() implies #[trigger] rest[i].token == l.token_address by {
            assert(rest[i] == vs[i]);
        }
        lemma_payouts_in_vouch_order(l, rest, total, rate_bps);
        assert(vs.last().token == l.token_address);
        assert forall|i: int| 0 <= i < rest.len() implies #[trigger] rest[i] == vs[i] by {}
    }
}

/// What an approval owes a voucher `v` of a loan `l` whose vouches in its
/// token total `total`, paid by `t`: to `v`'s voucher, in the loan's token,
/// at least the stake plus the full yield share in proportion to the stake
/// plus the mining reward, at most half the share more: exactly the share
/// for a vouch younger than seven days at disbursement, a quarter more from
/// seven days, half more from thirty.
pub open spec fn pays_full_share(l: LoanRecord, v: VouchRecord, total: int, rate_bps: u32, t: Transfer) -> bool {
    let share = (l.total_yield * v.stake) / total;
    let mining = (v.stake * rate_bps) / 10_000;
    &&& t.to == v.voucher
    &&& t.token == l.token_address
    &&& t.amount >= v.stake + share + mining
    &&& t.amount <= v.stake + (share * 3) / 2 + mining
    &&& l.disbursement_timestamp < v.vouch_timestamp + 7 * DAY_SECS ==> t.amount == v.stake + share + mining
    &&& v.vouch_timestamp + 7 * DAY_SECS <= l.disbursement_timestamp < v.vouch_timestamp + 30 * DAY_SECS ==> t.amount
        == v.stake + (share * 5) / 4 + mining
    &&& v.vouch_timestamp + 30 * DAY_SECS <= l.disbursement_timestamp ==> t.amount == v.stake + (share * 3) / 2 + mining
}

/// On approval every voucher is paid at least its stake, its full share of
/// the yield in proportion to its stake (`total_yield * stake / total
/// stake`) and its mining reward (`stake * rate / 10_000`): the age tiers
/// only raise the yield share, by at most half, and a vouch younger than
/// seven days at disbursement gets exactly its share. The payouts follow
/// the vouches in order.
pub proof fn lemma_approval_pays_full_share(l: LoanRecord, vs: Seq<VouchRecord>, rate_bps: u32)
    requires
        payouts_fit(l, vs, rate_bps),
        l.total_yield >= 0,
        forall|i: int| 0 <= i < vs.len() ==> #[trigger] vs[i].token == l.token_address,
    ensures
        oracle_payouts(l, vs, token_stake(vs, l.token_address), rate_bps).len() == vs.len(),
        forall|i: int|
            0 <= i < vs.len() ==> pays_full_share(
                l,
                vs[i],
                token_stake(vs, l.token_address),
                rate_bps,
                #[trigger] oracle_payouts(l, vs, token_stake(vs, l.token_address), rate_bps)[i],
            ),
{
    let total = token_stake(vs, l.token_address);
    lemma_payouts_in_vouch_order(l, vs, total, rate_bps);
    assert forall|i: int| 0 <= i < vs.len() implies pays_full_share(
        l,
        vs[i],
        total,
        rate_bps,
        #[trigger] oracle_payouts(l, vs, total, rate_bps)[i],
    ) by {
        let v = vs[i];
        assert(v.token == l.token_address);
        assert(v.stake > 0);
        lemma_stake_within_total(vs, l.token_address, i);
        let ty = l.total_yield as int;
        let st = v.stake as int;
        let r = rate_bps as int;
        assert(ty * st >= 0) by (nonlinear_arith)
            requires ty >= 0, st > 0;
        assert(st * r >= 0) by (nonlinear_arith)
            requires st > 0, r >= 0;
        let share = (ty * st) / total;
        assert(share >= 0) by (nonlinear_arith)
            requires ty * st >= 0, total > 0, share == (ty * st) / total;
        assert(base_share(ty, st, total) == share);
        if r == 0 {
            assert(st * r == 0) by (nonlinear_arith)
                requires r == 0;
        }
        assert(mining_reward(st, rate_bps) == (st * r) / 10_000);
        let m = age_multiplier_bps(vouch_age(l.disbursement_timestamp, v.vouch_timestamp));
        assert(10_000 <= m <= 15_000);
        assert(share * m >= 0) by (nonlinear_arith)
            requires share >= 0, m >= 0;
        assert(share * 3 >= 0);
        assert(tiered_share(l, v, total) == (share * m) / 10_000);
        assert(share <= (share * m) / 10_000 <= (share * 3) / 2) by (nonlinear_arith)
            requires share >= 0, 10_000 <= m <= 15_000;
        if l.disbursement_timestamp < v.vouch_timestamp + 7 * DAY_SECS {
            assert(m == 10_000);
            assert((share * 10_000) / 10_000 == share) by (nonlinear_arith);
        } else if l.disbursement_timestamp < v.vouch_timestamp + 30 * DAY_SECS {
            assert(m == 12_500);
            assert((share * 12_500) / 10_000 == (share * 5) / 4) by (nonlinear_arith);
        } else {
            assert(m == 15_000);
            assert((share * 15_000) / 10_000 == (share * 3) / 2) by (nonlinear_arith);
        }
        assert(i128::MIN <= v.stake + tiered_share(l, v, total) + mining_reward(st, rate_bps) <= i128::MAX);
    }
}

} // verus!
