//! Taking out loans: the dynamic yield rate, eligibility, requesting and
//! refinancing a loan against the stakes vouched for the borrower.
use vstd::prelude::*;
use crate::arith::{lemma_tdiv_bounds, tdiv};
use crate::errors::ContractError;
use crate::lending::{token_stake, EscrowStatus, LendingConfig, LoanRecord, LoanStatus, Transfer, VouchRecord};
use crate::types::Address;

verus! {

/// Yield rate of a borrower: `base_bps + credit_score / 100 -
/// default_count * 50`, floored at 0.
pub open spec fn dynamic_yield(base_bps: int, credit_score: int, default_count: int) -> int {
    let bps = base_bps + tdiv(credit_score, 100) - default_count * 50;
    if bps > 0 { bps } else { 0 }
}

/// Computes the yield rate of a borrower from the configured base rate,
/// their reputation score (0 without a reputation contract) and their past
/// defaults.
pub fn calculate_dynamic_yield(base_bps: i128, credit_score: i128, default_count: u32) -> (r: i128)
    requires
        i128::MIN <= base_bps + tdiv(credit_score as int, 100) <= i128::MAX,
        i128::MIN <= base_bps + tdiv(credit_score as int, 100) - default_count * 50 <= i128::MAX,
    ensures
        r == dynamic_yield(base_bps as int, credit_score as int, default_count as int),
{
    proof {
        lemma_tdiv_bounds(credit_score as int, 100);
    }
    let bps = base_bps + credit_score / 100 - (default_count as i128) * 50;
    if bps > 0 { bps } else { 0 }
}

/// Every running total of the stakes in `token` stays within `i128`.
pub open spec fn stake_sum_fits(vs: Seq<VouchRecord>, token: Address) -> bool {
    forall|k: int| 0 <= k <= vs.len() ==> i128::MIN <= #[trigger] token_stake(vs.subrange(0, k), token) <= i128::MAX
}

/// Number of vouches in `token`.
pub open spec fn token_count(vs: Seq<VouchRecord>, token: Address) -> nat
    decreases vs.len(),
{
    if vs.len() == 0 {
        0
    } else {
        token_count(vs.drop_last(), token) + if vs.last().token == token { 1nat } else { 0nat }
    }
}

/// A vouch younger than `min_age` seconds at `now`.
pub open spec fn is_recent(v: VouchRecord, now: u64, min_age: u64) -> bool {
    now < v.vouch_timestamp + min_age
}

/// No vouch in `token` is younger than `min_age`.
pub open spec fn none_recent(vs: Seq<VouchRecord>, token: Address, now: u64, min_age: u64) -> bool {
    forall|i: int| 0 <= i < vs.len() && #[trigger] vs[i].token == token ==> !is_recent(vs[i], now, min_age)
}

/// The age checks stop at the first recent vouch in `token`; every
/// timestamp checked before that, that one included, plus `min_age` fits
/// in `u64`.
pub open spec fn age_checks_fit(vs: Seq<VouchRecord>, token: Address, now: u64, min_age: u64) -> bool {
    forall|i: int|
        0 <= i < vs.len() && #[trigger] vs[i].token == token && none_recent(vs.subrange(0, i), token, now, min_age)
            ==> vs[i].vouch_timestamp + min_age <= u64::MAX
}

proof fn lemma_prefix_step(vs: Seq<VouchRecord>, i: int)
    requires
        0 <= i < vs.len(),
    ensures
        vs.subrange(0, i + 1).drop_last() == vs.subrange(0, i),
        vs.subrange(0, i + 1).last() == vs[i],
{
    assert(vs.subrange(0, i + 1).drop_last() == vs.subrange(0, i));
}

/// Sums the stakes in `token` with overflow checks: `None` when a running
/// total leaves `i128`.
pub fn checked_token_stake(vs: &Vec<VouchRecord>, token: Address) -> (r: Option<i128>)
    ensures
        r is Some <==> stake_sum_fits(vs@, token),
        r is Some ==> r->0 == token_stake(vs@, token),
{
    let mut total: i128 = 0;
    let mut i: usize = 0;
    while i < vs.len()
        invariant
            i <= vs@.len(),
            total == token_stake(vs@.subrange(0, i as int), token),
            forall|k: int| 0 <= k <= i ==> i128::MIN <= #[trigger] token_stake(vs@.subrange(0, k), token) <= i128::MAX,
        decreases vs@.len() - i,
    {
        proof {
            lemma_prefix_step(vs@, i as int);
        }
        if vs[i].token == token {
            match total.checked_add(vs[i].stake) {
                Some(t) => {
                    total = t;
                },
                None => {
                    assert(!(i128::MIN <= token_stake(vs@.subrange(0, i + 1), token) <= i128::MAX));
                    return None;
                },
            }
        }
        i = i + 1;
    }
    assert(vs@.subrange(0, vs@.len() as int) == vs@);
    Some(total)
}

/// Counts the vouches in `token`.
pub fn count_token_vouches(vs: &Vec<VouchRecord>, token: Address) -> (n: u32)
    requires
        vs@.len() <= u32::MAX,
    ensures
        n == token_count(vs@, token),
{
    let mut n: u32 = 0;
    let mut i: usize = 0;
    while i < vs.len()
        invariant
            i <= vs@.len() <= u32::MAX,
            n == token_count(vs@.subrange(0, i as int), token),
            n <= i,
        decreases vs@.len() - i,
    {
        proof {
            lemma_prefix_step(vs@, i as int);
        }
        if vs[i].token == token {
            n = n + 1;
        }
        i = i + 1;
    }
    assert(vs@.subrange(0, vs@.len() as int) == vs@);
    n
}

/// Whether some vouch in `token` is younger than `min_age` at `now`.
pub fn has_recent_vouch(vs: &Vec<VouchRecord>, token: Address, now: u64, min_age: u64) -> (b: bool)
    requires
        age_checks_fit(vs@, token, now, min_age),
    ensures
        b == !none_recent(vs@, token, now, min_age),
{
    let mut i: usize = 0;
    while i < vs.len()
        invariant
            i <= vs@.len(),
            age_checks_fit(vs@, token, now, min_age),
            none_recent(vs@.subrange(0, i as int), token, now, min_age),
        decreases vs@.len() - i,
    {
        if vs[i].token == token {
            assert(vs@[i as int].token == token);
            if now < vs[i].vouch_timestamp + min_age {
                return true;
            }
        }
        assert forall|j: int| 0 <= j < i + 1 && #[trigger] vs@.subrange(0, i + 1)[j].token == token implies !is_recent(
            vs@.subrange(0, i + 1)[j],
            now,
            min_age,
        ) by {
            if j < i {
                assert(vs@.subrange(0, i + 1)[j] == vs@.subrange(0, i as int)[j]);
            }
        }
        i = i + 1;
    }
    assert(vs@.subrange(0, vs@.len() as int) == vs@);
    false
}

/// A loan request: who asks for how much, against which stake threshold,
/// in which token.
#[derive(Clone, Copy, Debug, PartialEq, Eq, Structural)]
pub struct LoanRequest {
    pub borrower: Address,
    pub amount: i128,
    pub threshold: i128,
    pub token: Address,
}

/// What a loan request is decided on besides the vouches: the time, the
/// borrower's standing, the limits set by the admins (0 when unset), the
/// contract's balance and yield reserve in the token, the borrower's yield
/// rate, and the id the new loan gets.
#[derive(Clone, Copy, Debug, PartialEq, Eq, Structural)]
pub struct LoanContext {
    pub now: u64,
    pub blacklisted: bool,
    pub token_allowed: bool,
    pub has_active_loan: bool,
    pub max_loan_amount: i128,
    pub min_vouchers: u32,
    pub contract_balance: i128,
    pub yield_reserve: i128,
    pub dynamic_yield_bps: i128,
    pub loan_count: u32,
    pub loan_id: u64,
}

/// The first check a loan request fails, if any.
pub open spec fn request_error(req: LoanRequest, cfg: LendingConfig, ctx: LoanContext, vs: Seq<VouchRecord>) -> Option<
    ContractError,
> {
    if ctx.blacklisted {
        Some(ContractError::Blacklisted)
    } else if !ctx.token_allowed {
        Some(ContractError::InvalidToken)
    } else if req.amount < cfg.min_loan_amount {
        Some(ContractError::LoanBelowMinAmount)
    } else if ctx.max_loan_amount > 0 && req.amount > ctx.max_loan_amount {
        Some(ContractError::LoanExceedsMaxAmount)
    } else if ctx.has_active_loan {
        Some(ContractError::ActiveLoanExists)
    } else if !stake_sum_fits(vs, req.token) {
        Some(ContractError::StakeOverflow)
    } else if token_count(vs, req.token) < ctx.min_vouchers {
        Some(ContractError::InsufficientVouchers)
    } else if !none_recent(vs, req.token, ctx.now, cfg.min_vouch_age_secs) {
        Some(ContractError::VouchTooRecent)
    } else if ctx.contract_balance < req.amount {
        Some(ContractError::InsufficientFunds)
    } else if ctx.yield_reserve < tdiv(req.amount * ctx.dynamic_yield_bps, 10_000) {
        Some(ContractError::InsufficientYieldReserve)
    } else {
        None
    }
}

/// Largest loan the stake in the requested token allows.
pub open spec fn max_allowed_loan(vs: Seq<VouchRecord>, token: Address, ratio: u32) -> int {
    tdiv(token_stake(vs, token) * ratio, 100)
}

/// The conditions under which a loan request aborts instead of returning:
/// a negative threshold, a stake below the threshold, a loan above the
/// collateral ratio, or arithmetic leaving its type; each counts only once
/// the checks before it have passed.
pub open spec fn request_aborts(req: LoanRequest, cfg: LendingConfig, ctx: LoanContext, vs: Seq<VouchRecord>) -> bool {
    let total = token_stake(vs, req.token);
    let past_min = !ctx.blacklisted && ctx.token_allowed && req.amount >= cfg.min_loan_amount;
    let past_overflow = past_min && !(ctx.max_loan_amount > 0 && req.amount > ctx.max_loan_amount)
        && !ctx.has_active_loan && stake_sum_fits(vs, req.token);
    let past_count = past_overflow && total >= req.threshold && token_count(vs, req.token) >= ctx.min_vouchers;
    let past_age = past_count && none_recent(vs, req.token, ctx.now, cfg.min_vouch_age_secs);
    let past_ratio = past_age && req.amount <= max_allowed_loan(vs, req.token, cfg.max_loan_to_stake_ratio);
    let past_balance = past_ratio && ctx.contract_balance >= req.amount;
    ||| past_min && req.threshold < 0
    ||| past_overflow && total < req.threshold
    ||| past_count && !age_checks_fit(vs, req.token, ctx.now, cfg.min_vouch_age_secs)
    ||| past_age && !(i128::MIN <= total * cfg.max_loan_to_stake_ratio <= i128::MAX)
    ||| past_age && req.amount > max_allowed_loan(vs, req.token, cfg.max_loan_to_stake_ratio)
    ||| past_balance && ctx.now + cfg.loan_duration > u64::MAX
    ||| past_balance && !(i128::MIN <= req.amount * ctx.dynamic_yield_bps <= i128::MAX)
    ||| past_balance && request_error(req, cfg, ctx, vs) is None && ctx.loan_count == u32::MAX
}

/// The loan a granted request creates.
pub open spec fn granted_loan(req: LoanRequest, cfg: LendingConfig, ctx: LoanContext) -> LoanRecord {
    LoanRecord {
        id: ctx.loan_id,
        borrower: req.borrower,
        amount: req.amount,
        amount_repaid: 0,
        total_yield: tdiv(req.amount * ctx.dynamic_yield_bps, 10_000) as i128,
        status: LoanStatus::Active,
        repaid: false,
        defaulted: false,
        escrow_status: EscrowStatus::NoEscrow,
        created_at: ctx.now,
        disbursement_timestamp: ctx.now,
        repayment_timestamp: None,
        deadline: (ctx.now + cfg.loan_duration) as u64,
        token_address: req.token,
        reminder_sent: false,
        risk_score: 0,
    }
}

/// A granted loan: the record to store, the borrower's new loan count, the
/// disbursement from the contract, and the purpose to store with the loan.
#[derive(Debug)]
pub struct LoanGrant {
    pub loan: LoanRecord,
    pub loan_count: u32,
    pub disbursement: Transfer,
    pub loan_purpose: String,
}

/// Decide a loan request (the borrower has signed). Only the vouches in the
/// requested token count: their stake must reach the threshold, there must
/// be at least `min_vouchers` of them, none younger than the minimum vouch
/// age, and the loan may not exceed `max_loan_to_stake_ratio` percent of
/// their stake. A granted loan runs for the configured duration, owes
/// `amount * dynamic_yield_bps / 10_000` of yield, is disbursed to the
/// borrower, and keeps the stated `loan_purpose`.
pub fn request_loan(
    req: LoanRequest,
    loan_purpose: &String,
    cfg: &LendingConfig,
    ctx: LoanContext,
    vouches: &Vec<VouchRecord>,
) -> (r: Result<
    LoanGrant,
    ContractError,
>)
    requires
        vouches@.len() <= u32::MAX,
        !request_aborts(req, *cfg, ctx, vouches@),
    ensures
        r is Err <==> request_error(req, *cfg, ctx, vouches@) is Some,
        r is Err ==> r == Err::<LoanGrant, ContractError>(request_error(req, *cfg, ctx, vouches@)->0),
        r is Ok ==> r->Ok_0.loan == granted_loan(req, *cfg, ctx) && r->Ok_0.loan_count == ctx.loan_count + 1
            && r->Ok_0.disbursement == (Transfer { token: req.token, to: req.borrower, amount: req.amount })
            && r->Ok_0.loan_purpose@ == loan_purpose@,
        r is Ok ==> req.amount <= max_allowed_loan(vouches@, req.token, cfg.max_loan_to_stake_ratio),
        r is Ok ==> token_stake(vouches@, req.token) >= req.threshold >= 0,
        r is Ok && req.amount > 0 ==> token_count(vouches@, req.token) >= 1,
{
    if ctx.blacklisted {
        return Err(ContractError::Blacklisted);
    }
    if !ctx.token_allowed {
        return Err(ContractError::InvalidToken);
    }
    if req.amount < cfg.min_loan_amount {
        return Err(ContractError::LoanBelowMinAmount);
    }
    if ctx.max_loan_amount > 0 && req.amount > ctx.max_loan_amount {
        return Err(ContractError::LoanExceedsMaxAmount);
    }
    if ctx.has_active_loan {
        return Err(ContractError::ActiveLoanExists);
    }
    let total_stake = match checked_token_stake(vouches, req.token) {
        Some(t) => t,
        None => {
            return Err(ContractError::StakeOverflow);
        },
    };
    if token_count_below(vouches, req.token, ctx.min_vouchers) {
        return Err(ContractError::InsufficientVouchers);
    }
    if has_recent_vouch(vouches, req.token, ctx.now, cfg.min_vouch_age_secs) {
        return Err(ContractError::VouchTooRecent);
    }
    let max_allowed = total_stake * (cfg.max_loan_to_stake_ratio as i128) / 100;
    proof {
        lemma_tdiv_bounds(total_stake * cfg.max_loan_to_stake_ratio, 100);
    }
    if ctx.contract_balance < req.amount {
        return Err(ContractError::InsufficientFunds);
    }
    let deadline = ctx.now + cfg.loan_duration;
    let prod = req.amount * ctx.dynamic_yield_bps;
    proof {
        lemma_tdiv_bounds(prod as int, 10_000);
    }
    let total_yield = prod / 10_000;
    if ctx.yield_reserve < total_yield {
        return Err(ContractError::InsufficientYieldReserve);
    }
    assert(max_allowed == max_allowed_loan(vouches@, req.token, cfg.max_loan_to_stake_ratio));
    proof {
        lemma_backed_loan_has_vouch(vouches@, req.token);
        if req.amount > 0 {
            let st = token_stake(vouches@, req.token);
            let ratio = cfg.max_loan_to_stake_ratio as int;
            if st <= 0 {
                assert(st * ratio <= 0) by (nonlinear_arith)
                    requires st <= 0, ratio >= 0;
                lemma_tdiv_bounds(st * ratio, 100);
            }
        }
    }
    let loan = LoanRecord {
        id: ctx.loan_id,
        borrower: req.borrower,
        amount: req.amount,
        amount_repaid: 0,
        total_yield,
        status: LoanStatus::Active,
        repaid: false,
        defaulted: false,
        escrow_status: EscrowStatus::NoEscrow,
        created_at: ctx.now,
        disbursement_timestamp: ctx.now,
        repayment_timestamp: None,
        deadline,
        token_address: req.token,
        reminder_sent: false,
        risk_score: 0,
    };
    Ok(LoanGrant {
        loan,
        loan_count: ctx.loan_count + 1,
        disbursement: Transfer { token: req.token, to: req.borrower, amount: req.amount },
        loan_purpose: loan_purpose.clone(),
    })
}

/// Positive stake in a token comes from at least one vouch in that token.
proof fn lemma_backed_loan_has_vouch(vs: Seq<VouchRecord>, token: Address)
    ensures
        token_stake(vs, token) > 0 ==> token_count(vs, token) >= 1,
    decreases vs.len(),
{
    if vs.len() > 0 {
        lemma_backed_loan_has_vouch(vs.drop_last(), token);
    }
}

/// Whether fewer than `min` vouches are in `token`.
fn token_count_below(vs: &Vec<VouchRecord>, token: Address, min: u32) -> (b: bool)
    requires
        vs@.len() <= u32::MAX,
    ensures
        b == (token_count(vs@, token) < min),
{
    count_token_vouches(vs, token) < min
}

/// A vouch in another token leaves the stake, count, age and overflow
/// checks of a request as they were.
proof fn lemma_other_token_vouch_ignored(vs: Seq<VouchRecord>, v: VouchRecord, token: Address, now: u64, min_age: u64)
    requires
        v.token != token,
    ensures
        token_stake(vs.push(v), token) == token_stake(vs, token),
        token_count(vs.push(v), token) == token_count(vs, token),
        none_recent(vs.push(v), token, now, min_age) == none_recent(vs, token, now, min_age),
        age_checks_fit(vs.push(v), token, now, min_age) == age_checks_fit(vs, token, now, min_age),
        stake_sum_fits(vs.push(v), token) == stake_sum_fits(vs, token),
{
    let w = vs.push(v);
    assert(w.drop_last() == vs);
    assert forall|k: int| 0 <= k <= vs.len() implies #[trigger] w.subrange(0, k) == vs.subrange(0, k) by {}
    assert(w.subrange(0, w.len() as int) == w);
    assert(vs.subrange(0, vs.len() as int) == vs);
    if stake_sum_fits(vs, token) {
        assert forall|k: int| 0 <= k <= w.len() implies i128::MIN <= #[trigger] token_stake(w.subrange(0, k), token)
            <= i128::MAX by {
            if k <= vs.len() {
                assert(w.subrange(0, k) == vs.subrange(0, k));
                assert(i128::MIN <= token_stake(vs.subrange(0, k), token) <= i128::MAX);
            } else {
                assert(i128::MIN <= token_stake(vs.subrange(0, vs.len() as int), token) <= i128::MAX);
            }
        }
    }
    if stake_sum_fits(w, token) {
        assert forall|k: int| 0 <= k <= vs.len() implies i128::MIN <= #[trigger] token_stake(vs.subrange(0, k), token)
            <= i128::MAX by {
            assert(w.subrange(0, k) == vs.subrange(0, k));
            assert(i128::MIN <= token_stake(w.subrange(0, k), token) <= i128::MAX);
        }
    }
    if none_recent(vs, token, now, min_age) {
        assert forall|i: int| 0 <= i < w.len() && #[trigger] w[i].token == token implies !is_recent(w[i], now, min_age) by {
            assert(i < vs.len());
            assert(w[i] == vs[i]);
        }
    }
    if none_recent(w, token, now, min_age) {
        assert forall|i: int| 0 <= i < vs.len() && #[trigger] vs[i].token == token implies !is_recent(vs[i], now, min_age) by {
            assert(w[i] == vs[i]);
        }
    }
    if age_checks_fit(vs, token, now, min_age) {
        assert forall|i: int|
            0 <= i < w.len() && #[trigger] w[i].token == token && none_recent(w.subrange(0, i), token, now, min_age)
                implies w[i].vouch_timestamp + min_age <= u64::MAX by {
            assert(i < vs.len());
            assert(w[i] == vs[i]);
            assert(w.subrange(0, i) == vs.subrange(0, i));
        }
    }
    if age_checks_fit(w, token, now, min_age) {
        assert forall|i: int|
            0 <= i < vs.len() && #[trigger] vs[i].token == token && none_recent(vs.subrange(0, i), token, now, min_age)
                implies vs[i].vouch_timestamp + min_age <= u64::MAX by {
            assert(w[i] == vs[i]);
            assert(w.subrange(0, i) == vs.subrange(0, i));
        }
    }
}

/// A loan request is decided on the vouches in the requested token alone:
/// adding a vouch in any other token, however recent or large, changes
/// neither whether the request is refused, nor why, nor whether it aborts,
/// nor how much it may borrow.
pub proof fn lemma_request_ignores_other_tokens(
    req: LoanRequest,
    cfg: LendingConfig,
    ctx: LoanContext,
    vs: Seq<VouchRecord>,
    v: VouchRecord,
)
    requires
        v.token != req.token,
    ensures
        request_error(req, cfg, ctx, vs.push(v)) == request_error(req, cfg, ctx, vs),
        request_aborts(req, cfg, ctx, vs.push(v)) == request_aborts(req, cfg, ctx, vs),
        max_allowed_loan(vs.push(v), req.token, cfg.max_loan_to_stake_ratio) == max_allowed_loan(
            vs,
            req.token,
            cfg.max_loan_to_stake_ratio,
        ),
{
    lemma_other_token_vouch_ignored(vs, v, req.token, ctx.now, cfg.min_vouch_age_secs);
}

/// A request is refused as too recent only because of a vouch in the
/// requested token vouched less than `min_vouch_age_secs` before `now`.
pub proof fn lemma_too_recent_only_for_requested_token(
    req: LoanRequest,
    cfg: LendingConfig,
    ctx: LoanContext,
    vs: Seq<VouchRecord>,
)
    ensures
        request_error(req, cfg, ctx, vs) == Some(ContractError::VouchTooRecent) ==> exists|i: int|
            0 <= i < vs.len() && #[trigger] vs[i].token == req.token && ctx.now < vs[i].vouch_timestamp
                + cfg.min_vouch_age_secs,
{
}

} // verus!
