//! Recurring loan repayments: a borrower schedules a fixed payment every
//! `frequency_secs` from a start date; a keeper executes each payment once
//! due and reports failed attempts.
use vstd::prelude::*;
use crate::errors::ContractError;
use crate::lending::LoanRecord;
use crate::types::Address;

verus! {

/// A repayment schedule and its counters.
#[derive(Clone, Copy, Debug, PartialEq, Eq, Structural)]
pub struct RecurringPaymentConfig {
    pub borrower: Address,
    pub token: Address,
    pub amount: i128,
    pub frequency_secs: u64,
    pub start_date: u64,
    pub next_payment_due: u64,
    pub active: bool,
    pub success_count: u32,
    pub failure_count: u32,
    pub retry_count: u32,
}

/// Set up a schedule of `amount` (positive) every `frequency_secs`
/// (positive) from `start_date` in an allowed token, for a borrower with an
/// active loan and no active schedule (`existing`).
pub fn setup_recurring_payment(
    borrower: Address,
    token: Address,
    amount: i128,
    frequency_secs: u64,
    start_date: u64,
    token_allowed: bool,
    has_active_loan: bool,
    existing: Option<RecurringPaymentConfig>,
) -> (r: Result<RecurringPaymentConfig, ContractError>)
    ensures
        amount <= 0 || frequency_secs == 0 ==> r == Err::<RecurringPaymentConfig, ContractError>(ContractError::InvalidAmount),
        amount > 0 && frequency_secs > 0 && !token_allowed ==> r == Err::<RecurringPaymentConfig, ContractError>(
            ContractError::InvalidToken,
        ),
        amount > 0 && frequency_secs > 0 && token_allowed && !has_active_loan ==> r == Err::<
            RecurringPaymentConfig,
            ContractError,
        >(ContractError::NoActiveLoan),
        amount > 0 && frequency_secs > 0 && token_allowed && has_active_loan && existing is Some && existing->0.active
            ==> r == Err::<RecurringPaymentConfig, ContractError>(ContractError::RecurringPaymentExists),
        amount > 0 && frequency_secs > 0 && token_allowed && has_active_loan && !(existing is Some && existing->0.active)
            ==> r == Ok::<RecurringPaymentConfig, ContractError>(
            RecurringPaymentConfig {
                borrower,
                token,
                amount,
                frequency_secs,
                start_date,
                next_payment_due: start_date,
                active: true,
                success_count: 0,
                failure_count: 0,
                retry_count: 0,
            },
        ),
{
    if amount <= 0 || frequency_secs == 0 {
        return Err(ContractError::InvalidAmount);
    }
    if !token_allowed {
        return Err(ContractError::InvalidToken);
    }
    if !has_active_loan {
        return Err(ContractError::NoActiveLoan);
    }
    match existing {
        Some(e) => {
            if e.active {
                return Err(ContractError::RecurringPaymentExists);
            }
        },
        None => {},
    }
    Ok(RecurringPaymentConfig {
        borrower,
        token,
        amount,
        frequency_secs,
        start_date,
        next_payment_due: start_date,
        active: true,
        success_count: 0,
        failure_count: 0,
        retry_count: 0,
    })
}

/// `x + 1`, saturating at the largest `u32`.
pub open spec fn inc_sat(x: u32) -> u32 {
    if x == u32::MAX { x } else { (x + 1) as u32 }
}

/// The first check an execution fails, if any (the transfer from the
/// borrower aside).
pub open spec fn execute_error(stored: Option<RecurringPaymentConfig>, now: u64, loan: Option<LoanRecord>, token_allowed: bool) -> Option<
    ContractError,
> {
    if stored is None {
        Some(ContractError::RecurringPaymentNotFound)
    } else if !stored->0.active {
        Some(ContractError::RecurringPaymentInactive)
    } else if now < stored->0.next_payment_due {
        Some(ContractError::RecurringPaymentNotDue)
    } else if loan is None {
        Some(ContractError::NoActiveLoan)
    } else if !token_allowed {
        Some(ContractError::InvalidToken)
    } else if !(i128::MIN <= loan->0.amount_repaid + stored->0.amount <= i128::MAX) {
        Some(ContractError::ArithmeticError)
    } else if stored->0.next_payment_due + stored->0.frequency_secs > u64::MAX {
        Some(ContractError::ArithmeticError)
    } else {
        None
    }
}

/// Execute the due payment of a schedule at `now`: the amount is pulled
/// from the borrower and counted as repaid on their active loan, the next
/// payment falls one period later, the success count grows (saturating)
/// and the retry count resets. Returns the schedule, the loan and the
/// amount paid.
pub fn execute_recurring_payment(
    stored: Option<RecurringPaymentConfig>,
    now: u64,
    loan: Option<LoanRecord>,
    token_allowed: bool,
) -> (r: Result<(RecurringPaymentConfig, LoanRecord, i128), ContractError>)
    ensures
        r is Err <==> execute_error(stored, now, loan, token_allowed) is Some,
        r is Err ==> r->Err_0 == execute_error(stored, now, loan, token_allowed)->0,
        r is Ok ==> {
            let c = stored->0;
            let l = loan->0;
            r->Ok_0 == (
                RecurringPaymentConfig {
                    next_payment_due: (c.next_payment_due + c.frequency_secs) as u64,
                    success_count: inc_sat(c.success_count),
                    retry_count: 0,
                    ..c
                },
                LoanRecord { amount_repaid: (l.amount_repaid + c.amount) as i128, ..l },
                c.amount,
            )
        },
{
    let mut c = match stored {
        Some(c) => c,
        None => {
            return Err(ContractError::RecurringPaymentNotFound);
        },
    };
    if !c.active {
        return Err(ContractError::RecurringPaymentInactive);
    }
    if now < c.next_payment_due {
        return Err(ContractError::RecurringPaymentNotDue);
    }
    let mut l = match loan {
        Some(l) => l,
        None => {
            return Err(ContractError::NoActiveLoan);
        },
    };
    if !token_allowed {
        return Err(ContractError::InvalidToken);
    }
    l.amount_repaid = match l.amount_repaid.checked_add(c.amount) {
        Some(x) => x,
        None => {
            return Err(ContractError::ArithmeticError);
        },
    };
    c.next_payment_due = match c.next_payment_due.checked_add(c.frequency_secs) {
        Some(x) => x,
        None => {
            return Err(ContractError::ArithmeticError);
        },
    };
    c.success_count = c.success_count.saturating_add(1);
    c.retry_count = 0;
    Ok((c, l, c.amount))
}

/// Record a failed execution attempt: the retry and failure counts grow
/// (saturating). Returns the schedule and the retry count.
pub fn record_recurring_payment_failure(stored: Option<RecurringPaymentConfig>) -> (r: Result<
    (RecurringPaymentConfig, u32),
    ContractError,
>)
    ensures
        stored is None ==> r == Err::<(RecurringPaymentConfig, u32), ContractError>(ContractError::RecurringPaymentNotFound),
        stored is Some ==> r == Ok::<(RecurringPaymentConfig, u32), ContractError>(
            (
                RecurringPaymentConfig {
                    retry_count: inc_sat(stored->0.retry_count),
                    failure_count: inc_sat(stored->0.failure_count),
                    ..stored->0
                },
                inc_sat(stored->0.retry_count),
            ),
        ),
{
    match stored {
        None => Err(ContractError::RecurringPaymentNotFound),
        Some(c) => {
            let mut c = c;
            c.retry_count = c.retry_count.saturating_add(1);
            c.failure_count = c.failure_count.saturating_add(1);
            Ok((c, c.retry_count))
        },
    }
}

/// Terminate a schedule early: it becomes inactive.
pub fn terminate_recurring_payment(stored: Option<RecurringPaymentConfig>) -> (r: Result<RecurringPaymentConfig, ContractError>)
    ensures
        stored is None ==> r == Err::<RecurringPaymentConfig, ContractError>(ContractError::RecurringPaymentNotFound),
        stored is Some ==> r == Ok::<RecurringPaymentConfig, ContractError>(
            RecurringPaymentConfig { active: false, ..stored->0 },
        ),
{
    match stored {
        None => Err(ContractError::RecurringPaymentNotFound),
        Some(c) => Ok(RecurringPaymentConfig { active: false, ..c }),
    }
}

/// Success rate in basis points over all attempts (0 without a schedule
/// or without attempts).
pub fn recurring_payment_success_rate(stored: Option<RecurringPaymentConfig>) -> (bps: u32)
    requires
        stored is Some ==> stored->0.success_count + stored->0.failure_count <= u32::MAX && stored->0.success_count
            * 10_000 <= u32::MAX,
    ensures
        bps == (match stored {
            Some(c) => if c.success_count + c.failure_count == 0 {
                0
            } else {
                (c.success_count * 10_000) / (c.success_count + c.failure_count)
            },
            None => 0,
        }),
{
    match stored {
        Some(c) => {
            let attempts = c.success_count + c.failure_count;
            if attempts == 0 {
                0
            } else {
                (c.success_count * 10_000) / attempts
            }
        },
        None => 0,
    }
}

} // verus!
