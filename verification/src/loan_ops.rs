//! The other operations on a borrower's loan: refinancing, partial
//! repayment, co-borrowers, reminders, collateral, referrals, status
//! queries and the admin settings that touch a loan.
use vstd::prelude::*;
use crate::QuorumCreditContract;
use crate::arith::{lemma_tdiv_bounds, tdiv};
use crate::errors::ContractError;
use crate::lending::{status_advances, positive_stakes, stakes_fit, sum_token_stake, token_stake, EscrowStatus, LendingConfig, LoanRecord, LoanStatus, Transfer, VouchRecord};
use crate::loans::{checked_token_stake, stake_sum_fits};
use crate::types::Address;

verus! {

/// What a refinancing is decided on besides the old loan and the vouches.
#[derive(Clone, Copy, Debug, PartialEq, Eq, Structural)]
pub struct RefinanceContext {
    pub now: u64,
    pub contract: Address,
    pub token_allowed: bool,
    pub max_loan_amount: i128,
    pub contract_balance: i128,
    pub dynamic_yield_bps: i128,
    pub loan_count: u32,
    pub loan_id: u64,
}

/// A refinancing: the old loan closed as Repaid, the new loan, the
/// borrower's new loan count, and the transfers (the old loan's outstanding
/// balance settled by the contract to itself, then the new disbursement).
pub struct RefinanceOutcome {
    pub old_loan: LoanRecord,
    pub new_loan: LoanRecord,
    pub loan_count: u32,
    pub transfers: Vec<Transfer>,
}

/// The first check a refinancing fails, if any.
pub open spec fn refinance_error(
    stored: Option<LoanRecord>,
    borrower: Address,
    new_amount: i128,
    new_token: Address,
    cfg: LendingConfig,
    ctx: RefinanceContext,
    vs: Seq<VouchRecord>,
) -> Option<ContractError> {
    if stored is None {
        Some(ContractError::NoActiveLoan)
    } else if stored->0.borrower != borrower {
        Some(ContractError::UnauthorizedCaller)
    } else if !ctx.token_allowed {
        Some(ContractError::InvalidToken)
    } else if new_amount < cfg.min_loan_amount {
        Some(ContractError::LoanBelowMinAmount)
    } else if ctx.max_loan_amount > 0 && new_amount > ctx.max_loan_amount {
        Some(ContractError::LoanExceedsMaxAmount)
    } else if !stake_sum_fits(vs, new_token) {
        Some(ContractError::StakeOverflow)
    } else if ctx.contract_balance < new_amount {
        Some(ContractError::InsufficientFunds)
    } else {
        None
    }
}

/// Refinance the borrower's active loan (`stored`; the borrower has
/// signed) into a new loan of `new_amount` in `new_token`, against the
/// vouches in that token, which must reach `new_threshold`. The old loan's
/// outstanding balance is settled from the new proceeds and it is closed as
/// Repaid; the new loan owes `new_amount * dynamic_yield_bps / 10_000`.
pub fn refinance_loan(
    stored: Option<LoanRecord>,
    borrower: Address,
    new_amount: i128,
    new_threshold: i128,
    new_token: Address,
    cfg: &LendingConfig,
    ctx: RefinanceContext,
    vouches: &Vec<VouchRecord>,
) -> (r: Result<RefinanceOutcome, ContractError>)
    requires
        stored is Some && stored->0.borrower == borrower ==> new_amount > 0 && new_threshold > 0,
        stored is Some && stored->0.borrower == borrower && ctx.token_allowed && new_amount >= cfg.min_loan_amount
            && !(ctx.max_loan_amount > 0 && new_amount > ctx.max_loan_amount) && stake_sum_fits(vouches@, new_token)
            ==> token_stake(vouches@, new_token) >= new_threshold,
        refinance_error(stored, borrower, new_amount, new_token, *cfg, ctx, vouches@) is None ==> {
            let l = stored->0;
            &&& i128::MIN <= l.amount + l.total_yield <= i128::MAX
            &&& i128::MIN <= l.amount + l.total_yield - l.amount_repaid <= i128::MAX
            &&& ctx.now + cfg.loan_duration <= u64::MAX
            &&& i128::MIN <= new_amount * ctx.dynamic_yield_bps <= i128::MAX
            &&& ctx.loan_count < u32::MAX
        },
    ensures
        r is Err <==> refinance_error(stored, borrower, new_amount, new_token, *cfg, ctx, vouches@) is Some,
        r is Err ==> r == Err::<RefinanceOutcome, ContractError>(
            refinance_error(stored, borrower, new_amount, new_token, *cfg, ctx, vouches@)->0,
        ),
        r is Ok ==> {
            let o = r->Ok_0;
            let l = stored->0;
            &&& o.old_loan == (LoanRecord { status: LoanStatus::Repaid, repayment_timestamp: Some(ctx.now), ..l })
            &&& o.new_loan == (LoanRecord {
                id: ctx.loan_id,
                borrower,
                amount: new_amount,
                amount_repaid: 0,
                total_yield: tdiv(new_amount * ctx.dynamic_yield_bps, 10_000) as i128,
                status: LoanStatus::Active,
                repaid: false,
                defaulted: false,
                escrow_status: EscrowStatus::NoEscrow,
                created_at: ctx.now,
                disbursement_timestamp: ctx.now,
                repayment_timestamp: None,
                deadline: (ctx.now + cfg.loan_duration) as u64,
                token_address: new_token,
                reminder_sent: false,
                risk_score: 0,
            })
            &&& o.loan_count == ctx.loan_count + 1
            &&& o.transfers@ == seq![
                Transfer {
                    token: l.token_address,
                    to: ctx.contract,
                    amount: (l.amount + l.total_yield - l.amount_repaid) as i128,
                },
                Transfer { token: new_token, to: borrower, amount: new_amount },
            ]
        },
{
    let mut old = match stored {
        Some(l) => l,
        None => {
            return Err(ContractError::NoActiveLoan);
        },
    };
    if borrower != old.borrower {
        return Err(ContractError::UnauthorizedCaller);
    }
    if !ctx.token_allowed {
        return Err(ContractError::InvalidToken);
    }
    if new_amount < cfg.min_loan_amount {
        return Err(ContractError::LoanBelowMinAmount);
    }
    if ctx.max_loan_amount > 0 && new_amount > ctx.max_loan_amount {
        return Err(ContractError::LoanExceedsMaxAmount);
    }
    match checked_token_stake(vouches, new_token) {
        Some(_) => {},
        None => {
            return Err(ContractError::StakeOverflow);
        },
    }
    if ctx.contract_balance < new_amount {
        return Err(ContractError::InsufficientFunds);
    }
    let outstanding = old.amount + old.total_yield - old.amount_repaid;
    let mut transfers: Vec<Transfer> = Vec::new();
    transfers.push(Transfer { token: old.token_address, to: ctx.contract, amount: outstanding });
    old.status = LoanStatus::Repaid;
    old.repayment_timestamp = Some(ctx.now);
    let deadline = ctx.now + cfg.loan_duration;
    let prod = new_amount * ctx.dynamic_yield_bps;
    proof {
        lemma_tdiv_bounds(prod as int, 10_000);
    }
    let new_loan = LoanRecord {
        id: ctx.loan_id,
        borrower,
        amount: new_amount,
        amount_repaid: 0,
        total_yield: prod / 10_000,
        status: LoanStatus::Active,
        repaid: false,
        defaulted: false,
        escrow_status: EscrowStatus::NoEscrow,
        created_at: ctx.now,
        disbursement_timestamp: ctx.now,
        repayment_timestamp: None,
        deadline,
        token_address: new_token,
        reminder_sent: false,
        risk_score: 0,
    };
    transfers.push(Transfer { token: new_token, to: borrower, amount: new_amount });
    Ok(RefinanceOutcome { old_loan: old, new_loan, loan_count: ctx.loan_count + 1, transfers })
}

/// A partial repayment: the loan to store, the transfer made, and the new
/// repayment count when the loan is now repaid in full.
#[derive(Clone, Copy, Debug, PartialEq, Eq, Structural)]
pub struct PartialRepayment {
    pub loan: LoanRecord,
    pub transfer: Transfer,
    pub repayment_count: Option<u32>,
}

/// Record a payment of `payment` (in `1..=outstanding`) on the borrower's
/// active loan, paid out in `token`, which must be allowed. The transfer
/// goes from the contract to the borrower. Once principal and yield are
/// covered the loan is Repaid at `now` and the repayment count grows.
pub fn repay_partial(
    stored: Option<LoanRecord>,
    borrower: Address,
    payment: i128,
    token: Address,
    token_allowed: bool,
    now: u64,
    repayment_count: u32,
) -> (r: Result<PartialRepayment, ContractError>)
    requires
        stored is Some && stored->0.borrower == borrower ==> {
            let l = stored->0;
            &&& i128::MIN <= l.amount + l.total_yield <= i128::MAX
            &&& i128::MIN <= l.amount + l.total_yield - l.amount_repaid <= i128::MAX
            &&& 0 < payment <= l.amount + l.total_yield - l.amount_repaid
            &&& (token_allowed && l.amount_repaid + payment >= l.amount + l.total_yield ==> repayment_count < u32::MAX)
        },
    ensures
        r is Ok && stored->0.status == LoanStatus::Active ==> status_advances(stored->0.status, r->Ok_0.loan.status),
        stored is None ==> r == Err::<PartialRepayment, ContractError>(ContractError::NoActiveLoan),
        stored is Some && stored->0.borrower != borrower ==> r == Err::<PartialRepayment, ContractError>(
            ContractError::UnauthorizedCaller,
        ),
        stored is Some && stored->0.borrower == borrower && !token_allowed ==> r == Err::<PartialRepayment, ContractError>(
            ContractError::InvalidToken,
        ),
        stored is Some && stored->0.borrower == borrower && token_allowed ==> (r matches Ok(o) && {
            let l = stored->0;
            let full = l.amount_repaid + payment >= l.amount + l.total_yield;
            &&& o.loan == (LoanRecord {
                amount_repaid: (l.amount_repaid + payment) as i128,
                status: if full { LoanStatus::Repaid } else { l.status },
                repayment_timestamp: if full { Some(now) } else { l.repayment_timestamp },
                ..l
            })
            &&& o.transfer == (Transfer { token, to: borrower, amount: payment })
            &&& o.repayment_count == (if full { Some((repayment_count + 1) as u32) } else { None })
            &&& o.loan.amount_repaid <= l.amount + l.total_yield
        }),
{
    let mut loan = match stored {
        Some(l) => l,
        None => {
            return Err(ContractError::NoActiveLoan);
        },
    };
    if borrower != loan.borrower {
        return Err(ContractError::UnauthorizedCaller);
    }
    if !token_allowed {
        return Err(ContractError::InvalidToken);
    }
    loan.amount_repaid = loan.amount_repaid + payment;
    let mut count = None;
    if loan.amount_repaid >= loan.amount + loan.total_yield {
        loan.status = LoanStatus::Repaid;
        loan.repayment_timestamp = Some(now);
        count = Some(repayment_count + 1);
    }
    Ok(PartialRepayment { loan, transfer: Transfer { token, to: borrower, amount: payment }, repayment_count: count })
}

/// Add `co_borrower` to the co-borrowers of the borrower's active loan
/// (`co_borrower` is not the borrower). Refused without an active loan or
/// when already listed; otherwise appended.
pub fn add_co_borrower(
    borrower: Address,
    co_borrower: Address,
    stored: Option<LoanRecord>,
    co_borrowers: &Vec<Address>,
) -> (r: Result<Vec<Address>, ContractError>)
    requires
        borrower != co_borrower,
    ensures
        stored is None ==> r == Err::<Vec<Address>, ContractError>(ContractError::NoActiveLoan),
        stored is Some && co_borrowers@.contains(co_borrower) ==> r == Err::<Vec<Address>, ContractError>(
            ContractError::DuplicateVouch,
        ),
        stored is Some && !co_borrowers@.contains(co_borrower) ==> (r matches Ok(v) && v@ == co_borrowers@.push(co_borrower)),
{
    if stored.is_none() {
        return Err(ContractError::NoActiveLoan);
    }
    let mut i: usize = 0;
    while i < co_borrowers.len()
        invariant
            i <= co_borrowers@.len(),
            stored is Some,
            forall|j: int| 0 <= j < i ==> co_borrowers@[j] != co_borrower,
        decreases co_borrowers@.len() - i,
    {
        if co_borrowers[i] == co_borrower {
            assert(co_borrowers@.contains(co_borrower));
            return Err(ContractError::DuplicateVouch);
        }
        i = i + 1;
    }
    let mut out = co_borrowers.clone();
    proof {
        assert(out@ =~= co_borrowers@);
    }
    out.push(co_borrower);
    Ok(out)
}

/// Mark the reminder of an active loan as sent; refused for a loan that is
/// missing, not active, or already reminded.
pub fn send_repayment_reminder(stored: Option<LoanRecord>) -> (r: Result<LoanRecord, ContractError>)
    ensures
        stored is None ==> r == Err::<LoanRecord, ContractError>(ContractError::NoActiveLoan),
        stored is Some && stored->0.status != LoanStatus::Active ==> r == Err::<LoanRecord, ContractError>(
            ContractError::InvalidStateTransition,
        ),
        stored is Some && stored->0.status == LoanStatus::Active && stored->0.reminder_sent ==> r == Err::<
            LoanRecord,
            ContractError,
        >(ContractError::ReminderAlreadySent),
        stored is Some && stored->0.status == LoanStatus::Active && !stored->0.reminder_sent ==> r == Ok::<
            LoanRecord,
            ContractError,
        >(LoanRecord { reminder_sent: true, ..stored->0 }),
{
    let mut loan = match stored {
        Some(l) => l,
        None => {
            return Err(ContractError::NoActiveLoan);
        },
    };
    if loan.status != LoanStatus::Active {
        return Err(ContractError::InvalidStateTransition);
    }
    if loan.reminder_sent {
        return Err(ContractError::ReminderAlreadySent);
    }
    loan.reminder_sent = true;
    Ok(loan)
}

/// Seconds within which a deadline counts as due soon.
pub const REMINDER_WINDOW_SECS: u64 = 604_800;

/// An active loan whose deadline is still ahead and at most seven days away.
pub open spec fn due_soon(l: LoanRecord, now: u64) -> bool {
    l.status == LoanStatus::Active && l.deadline > now && l.deadline - now <= 604_800
}

/// The reminders for the loans, in order: `(borrower, deadline)` of each
/// loan due soon.
pub open spec fn reminders(loans: Seq<Option<LoanRecord>>, now: u64) -> Seq<(Address, u64)>
    decreases loans.len(),
{
    if loans.len() == 0 {
        Seq::empty()
    } else {
        let rest = reminders(loans.drop_last(), now);
        match loans.last() {
            Some(l) => if due_soon(l, now) { rest.push((l.borrower, l.deadline)) } else { rest },
            None => rest,
        }
    }
}

/// The repayment reminders to emit for the loans stored under ids
/// `1..=counter` (given in id order; `None` where no loan is stored).
pub fn emit_repayment_reminders(loans: &Vec<Option<LoanRecord>>, now: u64) -> (out: Vec<(Address, u64)>)
    ensures
        out@ == reminders(loans@, now),
{
    let mut out: Vec<(Address, u64)> = Vec::new();
    let mut i: usize = 0;
    while i < loans.len()
        invariant
            i <= loans@.len(),
            out@ == reminders(loans@.subrange(0, i as int), now),
        decreases loans@.len() - i,
    {
        assert(loans@.subrange(0, i + 1).drop_last() == loans@.subrange(0, i as int));
        assert(loans@.subrange(0, i + 1).last() == loans@[i as int]);
        match loans[i] {
            Some(l) => {
                if l.status == LoanStatus::Active && l.deadline > now && l.deadline - now <= REMINDER_WINDOW_SECS {
                    out.push((l.borrower, l.deadline));
                }
            },
            None => {},
        }
        i = i + 1;
    }
    assert(loans@.subrange(0, loans@.len() as int) == loans@);
    out
}

/// Release the slashed funds held in escrow for a borrower once the escrow
/// period is over: returns the amount released.
pub fn release_slash_escrow(escrow: Option<(i128, u64)>, now: u64) -> (r: Result<i128, ContractError>)
    ensures
        escrow is None ==> r == Err::<i128, ContractError>(ContractError::NoActiveLoan),
        escrow is Some && now < (escrow->0).1 ==> r == Err::<i128, ContractError>(ContractError::InvalidStateTransition),
        escrow is Some && now >= (escrow->0).1 ==> r == Ok::<i128, ContractError>((escrow->0).0),
{
    match escrow {
        None => Err(ContractError::NoActiveLoan),
        Some((amount, release_at)) => {
            if now < release_at {
                Err(ContractError::InvalidStateTransition)
            } else {
                Ok(amount)
            }
        },
    }
}

/// Set the yield reserve (approved by the admins); a negative amount is
/// refused.
pub fn set_yield_reserve(amount: i128) -> (r: Result<i128, ContractError>)
    ensures
        amount < 0 ==> r == Err::<i128, ContractError>(ContractError::InvalidAmount),
        amount >= 0 ==> r == Ok::<i128, ContractError>(amount),
{
    if amount < 0 {
        Err(ContractError::InvalidAmount)
    } else {
        Ok(amount)
    }
}

/// Set the risk score (at most 100) of the borrower's active loan
/// (approved by the admins).
pub fn set_borrower_risk_score(stored: Option<LoanRecord>, risk_score: u32) -> (r: Result<LoanRecord, ContractError>)
    ensures
        risk_score > 100 ==> r == Err::<LoanRecord, ContractError>(ContractError::InvalidAmount),
        risk_score <= 100 && stored is None ==> r == Err::<LoanRecord, ContractError>(ContractError::NoActiveLoan),
        risk_score <= 100 && stored is Some ==> r == Ok::<LoanRecord, ContractError>(
            LoanRecord { risk_score, ..stored->0 },
        ),
{
    if risk_score > 100 {
        return Err(ContractError::InvalidAmount);
    }
    match stored {
        None => Err(ContractError::NoActiveLoan),
        Some(l) => Ok(LoanRecord { risk_score, ..l }),
    }
}

/// Deposit `amount` (positive) of collateral in an allowed token on top of
/// the borrower's `current` collateral: returns the new total.
pub fn deposit_collateral(amount: i128, token_allowed: bool, current: i128) -> (r: Result<i128, ContractError>)
    requires
        amount > 0,
    ensures
        !token_allowed ==> r == Err::<i128, ContractError>(ContractError::InvalidToken),
        token_allowed && current + amount > i128::MAX ==> r == Err::<i128, ContractError>(ContractError::StakeOverflow),
        token_allowed && current + amount <= i128::MAX ==> r == Ok::<i128, ContractError>((current + amount) as i128),
{
    if !token_allowed {
        return Err(ContractError::InvalidToken);
    }
    match current.checked_add(amount) {
        Some(t) => Ok(t),
        None => Err(ContractError::StakeOverflow),
    }
}

/// Register `referrer` for `borrower` (who is not their own referrer):
/// refused while the borrower has an active loan; otherwise the referrer to
/// store.
pub fn register_referral(borrower: Address, referrer: Address, has_active_loan: bool) -> (r: Result<Address, ContractError>)
    requires
        borrower != referrer,
    ensures
        has_active_loan ==> r == Err::<Address, ContractError>(ContractError::ActiveLoanExists),
        !has_active_loan ==> r == Ok::<Address, ContractError>(referrer),
{
    if has_active_loan {
        Err(ContractError::ActiveLoanExists)
    } else {
        Ok(referrer)
    }
}

/// Whether a borrower may borrow against `threshold` in `token`: the
/// threshold is positive, their latest loan (if any) is not active, and
/// the stake vouched in `token` reaches the threshold.
pub fn is_eligible(latest: Option<LoanRecord>, vouches: &Vec<VouchRecord>, threshold: i128, token: Address) -> (b: bool)
    requires
        threshold > 0 && !(latest is Some && latest->0.status == LoanStatus::Active) ==> positive_stakes(vouches@)
            && stakes_fit(vouches@),
    ensures
        b == (threshold > 0 && !(latest is Some && latest->0.status == LoanStatus::Active) && token_stake(
            vouches@,
            token,
        ) >= threshold),
{
    if threshold <= 0 {
        return false;
    }
    match latest {
        Some(l) => {
            if l.status == LoanStatus::Active {
                return false;
            }
        },
        None => {},
    }
    sum_token_stake(vouches, token) >= threshold
}

/// Status of the borrower's latest loan (`NoLoan` without one).
pub fn loan_status(latest: Option<LoanRecord>) -> (s: LoanStatus)
    ensures
        s == (match latest {
            Some(l) => l.status,
            None => LoanStatus::NoLoan,
        }),
{
    match latest {
        Some(l) => l.status,
        None => LoanStatus::NoLoan,
    }
}

impl QuorumCreditContract {
    /// Confirm the intent to repay the borrower's active loan: returns the id
    /// of the loan whose confirmation is recorded.
    pub fn confirm_repayment(stored: Option<LoanRecord>) -> (r: Result<u64, ContractError>)
        ensures
            stored is None ==> r == Err::<u64, ContractError>(ContractError::NoActiveLoan),
            stored is Some ==> r == Ok::<u64, ContractError>(stored->0.id),
    {
        match stored {
            Some(l) => Ok(l.id),
            None => Err(ContractError::NoActiveLoan),
        }
    }
}

/// Retries allowed for a failed repayment.
pub const MAX_REPAYMENT_RETRIES: u32 = 3;

impl QuorumCreditContract {
    /// Count one more retry of a failed repayment on the borrower's active
    /// loan: refused without one or once three retries were made; the
    /// repayment itself then runs as `repay`.
    pub fn retry_repayment(stored: Option<LoanRecord>, retry_count: u32) -> (r: Result<u32, ContractError>)
        ensures
            stored is None ==> r == Err::<u32, ContractError>(ContractError::NoActiveLoan),
            stored is Some && retry_count >= 3 ==> r == Err::<u32, ContractError>(ContractError::MaxRetriesExceeded),
            stored is Some && retry_count < 3 ==> r == Ok::<u32, ContractError>((retry_count + 1) as u32),
    {
        if stored.is_none() {
            return Err(ContractError::NoActiveLoan);
        }
        if retry_count >= MAX_REPAYMENT_RETRIES {
            return Err(ContractError::MaxRetriesExceeded);
        }
        Ok(retry_count + 1)
    }
}

/// Most borrowers one status query may name.
pub const MAX_BATCH_BORROWERS: usize = 100;

impl QuorumCreditContract {
    /// The statuses of up to 100 borrowers, in order, from their latest loans
    /// (`latest[i]` for `borrowers[i]`); an empty or longer list is refused.
    pub fn batch_loan_status(borrowers: &Vec<Address>, latest: &Vec<Option<LoanRecord>>) -> (r: Result<
        Vec<(Address, LoanStatus)>,
        ContractError,
    >)
        requires
            latest@.len() == borrowers@.len(),
        ensures
            borrowers@.len() == 0 || borrowers@.len() > 100 ==> r == Err::<Vec<(Address, LoanStatus)>, ContractError>(
                ContractError::InsufficientFunds,
            ),
            0 < borrowers@.len() <= 100 ==> (r matches Ok(v) && v@.len() == borrowers@.len() && forall|i: int|
                0 <= i < borrowers@.len() ==> #[trigger] v@[i] == (
                    borrowers@[i],
                    match latest@[i] {
                        Some(l) => l.status,
                        None => LoanStatus::NoLoan,
                    },
                )),
    {
        if borrowers.len() == 0 || borrowers.len() > MAX_BATCH_BORROWERS {
            return Err(ContractError::InsufficientFunds);
        }
        let mut out: Vec<(Address, LoanStatus)> = Vec::new();
        let mut i: usize = 0;
        while i < borrowers.len()
            invariant
                i <= borrowers@.len(),
                latest@.len() == borrowers@.len(),
                out@.len() == i,
                forall|k: int|
                    0 <= k < i ==> #[trigger] out@[k] == (
                        borrowers@[k],
                        match latest@[k] {
                            Some(l) => l.status,
                            None => LoanStatus::NoLoan,
                        },
                    ),
            decreases borrowers@.len() - i,
        {
            let s = loan_status(latest[i]);
            out.push((borrowers[i], s));
            i = i + 1;
        }
        Ok(out)
    }
}

/// Whether a reputation NFT may be minted for a borrower: they repaid at
/// least one loan and a reputation contract is configured, whose address
/// is returned.
pub fn mint_reputation_nft(repayment_count: u32, nft_contract: Option<Address>) -> (r: Result<Address, ContractError>)
    ensures
        repayment_count == 0 || nft_contract is None ==> r == Err::<Address, ContractError>(ContractError::NoActiveLoan),
        repayment_count > 0 && nft_contract is Some ==> r == Ok::<Address, ContractError>(nft_contract->0),
{
    if repayment_count == 0 {
        return Err(ContractError::NoActiveLoan);
    }
    match nft_contract {
        Some(a) => Ok(a),
        None => Err(ContractError::NoActiveLoan),
    }
}

} // verus!
