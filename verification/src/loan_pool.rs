//! Loan pools: the admins disburse a batch of small loans at once, all or
//! nothing.
use vstd::prelude::*;
use crate::QuorumCreditContract;
use crate::arith::{lemma_tdiv_bounds, tdiv};
use crate::errors::ContractError;
use crate::lending::{all_stake, stakes_fit, EscrowStatus, LendingConfig, LoanRecord, LoanStatus, Transfer, VouchRecord};
use crate::loans::{granted_loan, LoanContext, LoanRequest};
use crate::types::Address;

verus! {

/// Sum of the first `k` amounts.
pub open spec fn amount_sum(amounts: Seq<i128>, k: int) -> int
    decreases k,
{
    if k <= 0 { 0 } else { amount_sum(amounts, k - 1) + amounts[k - 1] }
}

/// None of the first `k` borrowers has an active loan.
pub open spec fn clear_upto(active: Seq<bool>, k: int) -> bool {
    forall|j: int| 0 <= j < k ==> !#[trigger] active[j]
}

/// Sums every stake of a set of vouches, whatever its token.
pub fn sum_all_stakes(vs: &Vec<VouchRecord>) -> (total: i128)
    requires
        stakes_fit(vs@),
    ensures
        total == all_stake(vs@),
{
    let mut total: i128 = 0;
    let mut i: usize = 0;
    while i < vs.len()
        invariant
            i <= vs@.len(),
            stakes_fit(vs@),
            total == all_stake(vs@.subrange(0, i as int)),
        decreases vs@.len() - i,
    {
        assert(vs@.subrange(0, i + 1).drop_last() == vs@.subrange(0, i as int));
        assert(vs@.subrange(0, i + 1).last() == vs@[i as int]);
        assert(0 <= i + 1 <= vs@.len());
        assert(i128::MIN <= all_stake(vs@.subrange(0, i + 1)) <= i128::MAX);
        total = total + vs[i].stake;
        i = i + 1;
    }
    assert(vs@.subrange(0, vs@.len() as int) == vs@);
    total
}

/// The loan a pool creates for one borrower.
pub open spec fn pool_loan(borrower: Address, amount: i128, id: u64, cfg: LendingConfig, now: u64) -> LoanRecord {
    LoanRecord {
        id,
        borrower,
        amount,
        amount_repaid: 0,
        total_yield: tdiv(amount * cfg.yield_bps, 10_000) as i128,
        status: LoanStatus::Active,
        repaid: false,
        defaulted: false,
        escrow_status: EscrowStatus::NoEscrow,
        created_at: now,
        disbursement_timestamp: now,
        repayment_timestamp: None,
        deadline: (now + cfg.loan_duration) as u64,
        token_address: cfg.token,
        reminder_sent: false,
        risk_score: 0,
    }
}

/// The record kept of a pool.
pub struct LoanPoolRecord {
    pub pool_id: u64,
    pub borrowers: Vec<Address>,
    pub amounts: Vec<i128>,
    pub created_at: u64,
    pub total_disbursed: i128,
}

/// A created pool: its record, the loans to store (in borrower order), the
/// disbursements, and the loan counter after the new loans took their ids.
pub struct PoolOutcome {
    pub record: LoanPoolRecord,
    pub loans: Vec<LoanRecord>,
    pub transfers: Vec<Transfer>,
    pub loan_counter: u64,
}

/// Whether creating the pool runs without aborting: every borrower the
/// loop reaches asks at least the minimum loan amount, and every borrower
/// it gets past stays within their collateral ratio with all arithmetic in
/// range; a pool that is created needs a fresh pool id and its loans'
/// deadlines and yields in range.
pub open spec fn pool_fits(
    amounts: Seq<i128>,
    active: Seq<bool>,
    vouch_sets: Seq<Vec<VouchRecord>>,
    cfg: LendingConfig,
    now: u64,
    pool_counter: u64,
    loan_counter: u64,
    contract_balance: i128,
) -> bool {
    let n = amounts.len() as int;
    &&& now + cfg.loan_duration <= u64::MAX
    &&& forall|i: int| 0 <= i < n && clear_upto(active, i) ==> #[trigger] amounts[i] >= cfg.min_loan_amount
    &&& forall|i: int|
        0 <= i < n && clear_upto(active, i + 1) ==> {
            &&& stakes_fit(#[trigger] vouch_sets[i]@)
            &&& i128::MIN <= all_stake(vouch_sets[i]@) * cfg.max_loan_to_stake_ratio <= i128::MAX
            &&& amounts[i] <= tdiv(all_stake(vouch_sets[i]@) * cfg.max_loan_to_stake_ratio, 100)
            &&& i128::MIN <= amount_sum(amounts, i + 1) <= i128::MAX
        }
    &&& clear_upto(active, n) && contract_balance >= amount_sum(amounts, n) ==> {
        &&& pool_counter < u64::MAX
        &&& loan_counter + n <= u64::MAX
        &&& forall|i: int| 0 <= i < n ==> i128::MIN <= #[trigger] amounts[i] * cfg.yield_bps <= i128::MAX
    }
}

impl QuorumCreditContract {
    /// Create a loan pool (approved by the admins): one loan per borrower, in
    /// the configured token, each disbursed at once. `active[i]` says whether
    /// borrower `i` has an active loan and `vouch_sets[i]` holds their vouches;
    /// the loans take the ids after the stored `loan_counter`, in order. Refused when the lists
    /// differ in length or are empty, when a borrower already has an active
    /// loan, or when the contract cannot cover the total.
    pub fn create_loan_pool(
        borrowers: &Vec<Address>,
        amounts: &Vec<i128>,
        active: &Vec<bool>,
        vouch_sets: &Vec<Vec<VouchRecord>>,
        loan_counter: u64,
        cfg: &LendingConfig,
        now: u64,
        pool_counter: u64,
        contract_balance: i128,
    ) -> (r: Result<PoolOutcome, ContractError>)
        requires
            borrowers@.len() == amounts@.len() ==> active@.len() == borrowers@.len() && vouch_sets@.len()
                == borrowers@.len(),
            borrowers@.len() == amounts@.len() && borrowers@.len() > 0 ==> pool_fits(
                amounts@,
                active@,
                vouch_sets@,
                *cfg,
                now,
                pool_counter,
                loan_counter,
                contract_balance,
            ),
        ensures
            borrowers@.len() != amounts@.len() ==> r == Err::<PoolOutcome, ContractError>(ContractError::PoolLengthMismatch),
            borrowers@.len() == amounts@.len() && borrowers@.len() == 0 ==> r == Err::<PoolOutcome, ContractError>(
                ContractError::PoolEmpty,
            ),
            borrowers@.len() == amounts@.len() && borrowers@.len() > 0 ==> {
                let n = amounts@.len() as int;
                &&& !clear_upto(active@, n) ==> r == Err::<PoolOutcome, ContractError>(ContractError::PoolBorrowerActiveLoan)
                &&& clear_upto(active@, n) && contract_balance < amount_sum(amounts@, n) ==> r == Err::<
                    PoolOutcome,
                    ContractError,
                >(ContractError::PoolInsufficientFunds)
                &&& clear_upto(active@, n) && contract_balance >= amount_sum(amounts@, n) ==> (r matches Ok(o) && {
                    &&& o.record.pool_id == pool_counter + 1
                    &&& o.record.borrowers@ == borrowers@
                    &&& o.record.amounts@ == amounts@
                    &&& o.record.created_at == now
                    &&& o.record.total_disbursed == amount_sum(amounts@, n)
                    &&& o.loans@.len() == n
                    &&& o.transfers@.len() == n
                    &&& forall|i: int|
                        0 <= i < n ==> #[trigger] o.loans@[i] == pool_loan(borrowers@[i], amounts@[i], (loan_counter + 1 + i) as u64, *cfg, now)
                    &&& o.loan_counter == loan_counter + n
                    &&& forall|i: int|
                        0 <= i < n ==> #[trigger] o.transfers@[i] == (Transfer {
                            token: cfg.token,
                            to: borrowers@[i],
                            amount: amounts@[i],
                        })
                })
            },
    {
        if borrowers.len() != amounts.len() {
            return Err(ContractError::PoolLengthMismatch);
        }
        if borrowers.len() == 0 {
            return Err(ContractError::PoolEmpty);
        }
        let n = amounts.len();
        let deadline = now + cfg.loan_duration;
        let mut total: i128 = 0;
        let mut i: usize = 0;
        while i < n
            invariant
                n == amounts@.len(),
                n == borrowers@.len(),
                i <= n,
                active@.len() == n,
                vouch_sets@.len() == n,
                pool_fits(amounts@, active@, vouch_sets@, *cfg, now, pool_counter, loan_counter, contract_balance),
                clear_upto(active@, i as int),
                total == amount_sum(amounts@, i as int),
            decreases n - i,
        {
            let amount = amounts[i];
            assert(amounts@[i as int] >= cfg.min_loan_amount);
            if active[i] {
                return Err(ContractError::PoolBorrowerActiveLoan);
            }
            assert(clear_upto(active@, i + 1));
            assert(stakes_fit(vouch_sets@[i as int]@));
            let stake = sum_all_stakes(&vouch_sets[i]);
            let max_allowed = stake * (cfg.max_loan_to_stake_ratio as i128) / 100;
            assert(amount <= max_allowed);
            total = total + amount;
            i = i + 1;
        }
        assert(clear_upto(active@, n as int));
        if contract_balance < total {
            return Err(ContractError::PoolInsufficientFunds);
        }
        let pool_id = pool_counter + 1;
        let mut loans: Vec<LoanRecord> = Vec::new();
        let mut transfers: Vec<Transfer> = Vec::new();
        let mut j: usize = 0;
        while j < n
            invariant
                n == amounts@.len(),
                n == borrowers@.len(),
                j <= n,
                loan_counter + n <= u64::MAX,
                deadline == now + cfg.loan_duration,
                forall|k: int| 0 <= k < n ==> i128::MIN <= #[trigger] amounts@[k] * cfg.yield_bps <= i128::MAX,
                loans@.len() == j,
                transfers@.len() == j,
                forall|k: int| 0 <= k < j ==> #[trigger] loans@[k] == pool_loan(borrowers@[k], amounts@[k], (loan_counter + 1 + k) as u64, *cfg, now),
                forall|k: int|
                    0 <= k < j ==> #[trigger] transfers@[k] == (Transfer { token: cfg.token, to: borrowers@[k], amount: amounts@[k] }),
            decreases n - j,
        {
            let amount = amounts[j];
            assert(i128::MIN <= amounts@[j as int] * cfg.yield_bps <= i128::MAX);
            proof {
                lemma_tdiv_bounds(amount * cfg.yield_bps, 10_000);
            }
            loans.push(LoanRecord {
                id: loan_counter + 1 + j as u64,
                borrower: borrowers[j],
                amount,
                amount_repaid: 0,
                total_yield: amount * cfg.yield_bps / 10_000,
                status: LoanStatus::Active,
                repaid: false,
                defaulted: false,
                escrow_status: EscrowStatus::NoEscrow,
                created_at: now,
                disbursement_timestamp: now,
                repayment_timestamp: None,
                deadline,
                token_address: cfg.token,
                reminder_sent: false,
                risk_score: 0,
            });
            transfers.push(Transfer { token: cfg.token, to: borrowers[j], amount });
            j = j + 1;
        }
        let record = LoanPoolRecord {
            pool_id,
            borrowers: borrowers.clone(),
            amounts: amounts.clone(),
            created_at: now,
            total_disbursed: total,
        };
        Ok(PoolOutcome { record, loans, transfers, loan_counter: loan_counter + n as u64 })
    }
}

/// Every loan a pool creates is disbursed at `now`, runs for the configured
/// loan duration (so it is not overdue when disbursed), owes
/// `amount * yield_bps / 10_000` of yield (rounded toward zero) and is an
/// active, unpaid loan of the borrower in the configured token; it is the
/// loan a single granted request for the same amount at the same yield
/// would create.
pub proof fn lemma_pool_loans_run_full_duration(
    borrower: Address,
    amount: i128,
    id: u64,
    cfg: LendingConfig,
    now: u64,
    req: LoanRequest,
    ctx: LoanContext,
)
    requires
        now + cfg.loan_duration <= u64::MAX,
        amount >= 0,
        req.borrower == borrower && req.amount == amount && req.token == cfg.token,
        ctx.now == now && ctx.loan_id == id && ctx.dynamic_yield_bps == cfg.yield_bps,
    ensures
        ({
            let l = pool_loan(borrower, amount, id, cfg, now);
            &&& l.deadline == now + cfg.loan_duration
            &&& cfg.loan_duration > 0 ==> l.deadline > now
            &&& l.created_at == now && l.disbursement_timestamp == now
            &&& l.borrower == borrower && l.amount == amount && l.id == id && l.token_address == cfg.token
            &&& l.status == LoanStatus::Active && l.amount_repaid == 0 && !l.repaid && !l.defaulted
            &&& cfg.yield_bps >= 0 && amount * cfg.yield_bps <= i128::MAX ==> l.total_yield == (amount
                * cfg.yield_bps) / 10_000
            &&& l == granted_loan(req, cfg, ctx)
        }),
{
    if cfg.yield_bps >= 0 {
        assert(amount * cfg.yield_bps >= 0) by (nonlinear_arith)
            requires amount >= 0, cfg.yield_bps >= 0;
    }
}

} // verus!
