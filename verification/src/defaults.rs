//! Defaults: slashing a loan's vouchers, slashing automatically once the
//! deadline has passed, claiming an expired loan, and paying out the slash
//! treasury.
//!
//! Each operation takes the loan and the vouches it reads and returns the
//! loan to store, the transfers to make and the counters to write.
use vstd::prelude::*;
use crate::QuorumCreditContract;
use crate::arith::{bps_of, lemma_mul_within, lemma_tdiv_bounds, sat_sub, saturating_sub_i128};
use crate::lending::{
    status_advances, is_zero, is_zero_address, positive_stakes, token_stake, transfers_total, LoanRecord, LoanStatus,
    Transfer, VouchRecord,
};
use crate::types::Address;

verus! {

/// The part of a stake that a slash of `bps` basis points takes.
pub open spec fn slash_part(stake: int, bps: int) -> int {
    bps_of(stake, bps)
}

/// The transfers of a slash, in vouch order: each vouch in `token` gets
/// back its stake less its slashed part when that is positive; when
/// `others`, each vouch in another token (other than the zero address) gets
/// its full stake back in its own token.
pub open spec fn slash_returns(vs: Seq<VouchRecord>, token: Address, bps: int, others: bool) -> Seq<Transfer>
    decreases vs.len(),
{
    if vs.len() == 0 {
        Seq::empty()
    } else {
        let rest = slash_returns(vs.drop_last(), token, bps, others);
        let v = vs.last();
        if v.token == token {
            let ret = v.stake - slash_part(v.stake as int, bps);
            if ret > 0 { rest.push(Transfer { token, to: v.voucher, amount: ret as i128 }) } else { rest }
        } else if others && !is_zero(v.token) {
            rest.push(Transfer { token: v.token, to: v.voucher, amount: v.stake })
        } else {
            rest
        }
    }
}

/// Total slashed from the vouches in `token`.
pub open spec fn slashed_total(vs: Seq<VouchRecord>, token: Address, bps: int) -> int
    decreases vs.len(),
{
    if vs.len() == 0 {
        0
    } else {
        slashed_total(vs.drop_last(), token, bps) + if vs.last().token == token {
            slash_part(vs.last().stake as int, bps)
        } else {
            0
        }
    }
}

/// Whether slashing `bps` of the vouches in `token` stays within `i128`.
pub open spec fn slash_fits(vs: Seq<VouchRecord>, token: Address, bps: i128) -> bool {
    &&& forall|i: int|
        0 <= i < vs.len() && #[trigger] vs[i].token == token ==> {
            &&& i128::MIN <= vs[i].stake * bps <= i128::MAX
            &&& i128::MIN <= vs[i].stake - slash_part(vs[i].stake as int, bps as int) <= i128::MAX
        }
    &&& forall|k: int|
        0 <= k <= vs.len() ==> i128::MIN <= #[trigger] slashed_total(vs.subrange(0, k), token, bps as int)
            <= i128::MAX
}

/// Computes the transfers and the total of slashing `bps` of the vouches.
pub fn plan_slash(vs: &Vec<VouchRecord>, token: Address, bps: i128, others: bool) -> (r: (Vec<Transfer>, i128))
    requires
        slash_fits(vs@, token, bps),
    ensures
        r.0@ == slash_returns(vs@, token, bps as int, others),
        r.1 == slashed_total(vs@, token, bps as int),
{
    let mut out: Vec<Transfer> = Vec::new();
    let mut total: i128 = 0;
    let mut i: usize = 0;
    while i < vs.len()
        invariant
            i <= vs@.len(),
            slash_fits(vs@, token, bps),
            out@ == slash_returns(vs@.subrange(0, i as int), token, bps as int, others),
            total == slashed_total(vs@.subrange(0, i as int), token, bps as int),
        decreases vs@.len() - i,
    {
        let v = vs[i];
        assert(vs@.subrange(0, i + 1).drop_last() == vs@.subrange(0, i as int));
        assert(vs@.subrange(0, i + 1).last() == vs@[i as int]);
        if v.token == token {
            assert(vs@[i as int].token == token);
            let prod = v.stake * bps;
            proof {
                lemma_tdiv_bounds(prod as int, 10_000);
            }
            let part = prod / 10_000;
            let returned = v.stake - part;
            if returned > 0 {
                out.push(Transfer { token, to: v.voucher, amount: returned });
            }
            assert(0 <= i + 1 <= vs@.len());
            assert(i128::MIN <= slashed_total(vs@.subrange(0, i + 1), token, bps as int) <= i128::MAX);
            total = total + part;
        } else if others && !is_zero_address(v.token) {
            out.push(Transfer { token: v.token, to: v.voucher, amount: v.stake });
        }
        i = i + 1;
    }
    assert(vs@.subrange(0, vs@.len() as int) == vs@);
    (out, total)
}

/// What a default does: the loan to store, the transfers from the
/// contract in order, the amount to add to the slash treasury and the
/// borrower's new default count; which of the borrower's records to
/// remove (the active-loan link, the vouches), how much to take off the
/// total value locked, and whether to burn the borrower's reputation NFT.
pub struct DefaultOutcome {
    pub loan: LoanRecord,
    pub transfers: Vec<Transfer>,
    pub total_slashed: i128,
    pub default_count: u32,
    pub clear_active_loan: bool,
    pub clear_vouches: bool,
    pub tvl_decrease: i128,
    pub burn_reputation: bool,
}

impl QuorumCreditContract {
    /// Slash an active loan (approved by the admins). `vouches` are the
    /// borrower's vouches as left by processing the withdrawal queue. The loan
    /// becomes Defaulted; each vouch in the loan's token loses `slash_bps` of
    /// its stake and gets the rest back, every other vouch gets its stake back
    /// in its own token. Also returns the shortfall to claim from insurance:
    /// the loan amount less the total slashed, when positive.
    pub fn slash(loan: LoanRecord, slash_bps: i128, vouches: &Vec<VouchRecord>, default_count: Option<u32>) -> (r: (
        DefaultOutcome,
        Option<i128>,
    ))
        requires
            loan.status == LoanStatus::Active,
            slash_fits(vouches@, loan.token_address, slash_bps),
            default_count.unwrap_or(0) < u32::MAX,
        ensures
            r.0.loan == (LoanRecord { status: LoanStatus::Defaulted, ..loan }),
            r.0.transfers@ == slash_returns(vouches@, loan.token_address, slash_bps as int, true),
            r.0.total_slashed == slashed_total(vouches@, loan.token_address, slash_bps as int),
            r.0.default_count == default_count.unwrap_or(0) + 1,
            r.0.clear_active_loan && r.0.clear_vouches && r.0.burn_reputation,
            r.0.tvl_decrease == loan.amount,
            status_advances(loan.status, r.0.loan.status),
            r.1 == (if sat_sub(loan.amount as int, r.0.total_slashed as int) > 0 {
                Some(sat_sub(loan.amount as int, r.0.total_slashed as int) as i128)
            } else {
                None::<i128>
            }),
    {
        let mut l = loan;
        l.status = LoanStatus::Defaulted;
        let (transfers, total) = plan_slash(vouches, loan.token_address, slash_bps, true);
        let shortfall = saturating_sub_i128(loan.amount, total);
        let claim = if shortfall > 0 { Some(shortfall) } else { None };
        let count = match default_count {
            Some(c) => c,
            None => 0,
        };
        (
            DefaultOutcome {
                loan: l,
                transfers,
                total_slashed: total,
                default_count: count + 1,
                clear_active_loan: true,
                clear_vouches: true,
                tvl_decrease: loan.amount,
                burn_reputation: true,
            },
            claim,
        )
    }
}

impl QuorumCreditContract {
    /// Slash a loan whose deadline has passed; anyone may call it. It applies
    /// the standard slash penalty once: `vouches` are the borrower's vouches as
    /// left by processing the withdrawal queue; each vouch in the loan's token
    /// gets its stake less its slashed part back, every other vouch (not in
    /// the zero address) its stake in its own token. The loan is marked
    /// defaulted and Defaulted, the slash treasury grows by the total slashed,
    /// the borrower's active-loan link and vouches are removed, the loan
    /// amount leaves the total value locked and the reputation NFT is burnt.
    pub fn auto_slash(
        loan: LoanRecord,
        now: u64,
        slash_bps: i128,
        vouches: &Vec<VouchRecord>,
        default_count: Option<u32>,
    ) -> (r: DefaultOutcome)
        requires
            loan.status == LoanStatus::Active,
            now > loan.deadline,
            slash_fits(vouches@, loan.token_address, slash_bps),
            default_count.unwrap_or(0) < u32::MAX,
        ensures
            r.loan == (LoanRecord { status: LoanStatus::Defaulted, defaulted: true, ..loan }),
            r.transfers@ == slash_returns(vouches@, loan.token_address, slash_bps as int, true),
            r.total_slashed == slashed_total(vouches@, loan.token_address, slash_bps as int),
            r.default_count == default_count.unwrap_or(0) + 1,
            r.clear_active_loan && r.clear_vouches && r.burn_reputation,
            r.tvl_decrease == loan.amount,
            status_advances(loan.status, r.loan.status),
    {
        let mut l = loan;
        l.defaulted = true;
        l.status = LoanStatus::Defaulted;
        let (transfers, total) = plan_slash(vouches, loan.token_address, slash_bps, true);
        let count = match default_count {
            Some(c) => c,
            None => 0,
        };
        DefaultOutcome {
            loan: l,
            transfers,
            total_slashed: total,
            default_count: count + 1,
            clear_active_loan: true,
            clear_vouches: true,
            tvl_decrease: loan.amount,
            burn_reputation: true,
        }
    }
}

/// The full-stake refunds of an expired loan, in vouch order: each vouch in
/// `token`; when `others`, also each vouch in another token (other than the
/// zero address), in its own token.
pub open spec fn stake_returns(vs: Seq<VouchRecord>, token: Address, others: bool) -> Seq<Transfer>
    decreases vs.len(),
{
    if vs.len() == 0 {
        Seq::empty()
    } else {
        let rest = stake_returns(vs.drop_last(), token, others);
        let v = vs.last();
        if v.token == token {
            rest.push(Transfer { token, to: v.voucher, amount: v.stake })
        } else if others && !is_zero(v.token) {
            rest.push(Transfer { token: v.token, to: v.voucher, amount: v.stake })
        } else {
            rest
        }
    }
}

fn plan_stake_returns(vs: &Vec<VouchRecord>, token: Address, others: bool) -> (out: Vec<Transfer>)
    ensures
        out@ == stake_returns(vs@, token, others),
{
    let mut out: Vec<Transfer> = Vec::new();
    let mut i: usize = 0;
    while i < vs.len()
        invariant
            i <= vs@.len(),
            out@ == stake_returns(vs@.subrange(0, i as int), token, others),
        decreases vs@.len() - i,
    {
        let v = vs[i];
        assert(vs@.subrange(0, i + 1).drop_last() == vs@.subrange(0, i as int));
        assert(vs@.subrange(0, i + 1).last() == vs@[i as int]);
        if v.token == token {
            out.push(Transfer { token, to: v.voucher, amount: v.stake });
        } else if others && !is_zero_address(v.token) {
            out.push(Transfer { token: v.token, to: v.voucher, amount: v.stake });
        }
        i = i + 1;
    }
    assert(vs@.subrange(0, vs@.len() as int) == vs@);
    out
}

impl QuorumCreditContract {
    /// The borrower claims back the stakes of a loan at or past its deadline.
    /// `vouches` are the vouches as left by processing the withdrawal queue.
    /// Each vouch in the loan's token is refunded in full twice, then every
    /// other vouch once in its own token; nothing is slashed. The loan is
    /// marked defaulted and Defaulted.
    pub fn claim_expired_loan(loan: LoanRecord, now: u64, vouches: &Vec<VouchRecord>, default_count: Option<u32>) -> (r:
        DefaultOutcome)
        requires
            loan.status == LoanStatus::Active,
            now >= loan.deadline,
            default_count.unwrap_or(0) < u32::MAX,
        ensures
            r.loan == (LoanRecord { status: LoanStatus::Defaulted, defaulted: true, ..loan }),
            r.transfers@ == stake_returns(vouches@, loan.token_address, false) + stake_returns(
                vouches@,
                loan.token_address,
                true,
            ),
            r.total_slashed == 0,
            r.default_count == default_count.unwrap_or(0) + 1,
            r.clear_active_loan && r.clear_vouches && !r.burn_reputation,
            r.tvl_decrease == loan.amount,
            status_advances(loan.status, r.loan.status),
    {
        let mut l = loan;
        let mut first = plan_stake_returns(vouches, loan.token_address, false);
        l.defaulted = true;
        let mut second = plan_stake_returns(vouches, loan.token_address, true);
        first.append(&mut second);
        l.status = LoanStatus::Defaulted;
        let count = match default_count {
            Some(c) => c,
            None => 0,
        };
        DefaultOutcome {
            loan: l,
            transfers: first,
            total_slashed: 0,
            default_count: count + 1,
            clear_active_loan: true,
            clear_vouches: true,
            tvl_decrease: loan.amount,
            burn_reputation: false,
        }
    }
}

impl QuorumCreditContract {
    /// Pay out the whole slash treasury `balance` (which must be positive) to
    /// `recipient` in `token`; the treasury is left at zero.
    pub fn slash_treasury(balance: i128, token: Address, recipient: Address) -> (r: (i128, Transfer))
        requires
            balance > 0,
        ensures
            r.0 == 0,
            r.1 == (Transfer { token, to: recipient, amount: balance }),
    {
        (0, Transfer { token, to: recipient, amount: balance })
    }
}

/// A slash with a rate between 0 and 100% takes from each voucher in the
/// loan's token no more than their stake, and what it takes plus what it
/// returns to them is exactly the stake vouched in that token.
pub proof fn lemma_slash_conserves_stake(vs: Seq<VouchRecord>, token: Address, bps: int)
    requires
        positive_stakes(vs),
        0 <= bps <= 10_000,
    ensures
        transfers_total(slash_returns(vs, token, bps, false)) + slashed_total(vs, token, bps) == token_stake(
            vs,
            token,
        ),
        0 <= slashed_total(vs, token, bps) <= token_stake(vs, token),
    decreases vs.len(),
{
    if vs.len() > 0 {
        let rest = vs.drop_last();
        assert(positive_stakes(rest)) by {
            assert forall|i: int| 0 <= i < rest.len() implies #[trigger] rest[i].stake > 0 by {
                assert(rest[i] == vs[i]);
            }
        }
        lemma_slash_conserves_stake(rest, token, bps);
        let v = vs.last();
        assert(v.stake > 0);
        if v.token == token {
            let s = v.stake as int;
            lemma_mul_within(s, bps, 10_000);
            lemma_tdiv_bounds(s * bps, 10_000);
            assert((s * bps) / 10_000 <= s) by (nonlinear_arith)
                requires s > 0, 0 <= s * bps <= s * 10_000;
            let ret = s - slash_part(s, bps);
            let prev = slash_returns(rest, token, bps, false);
            if ret > 0 {
                let now_seq = prev.push(Transfer { token, to: v.voucher, amount: ret as i128 });
                assert(now_seq.drop_last() == prev);
            }
        }
    }
}

} // verus!
