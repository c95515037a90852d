//! Loans backed by vouches: requesting, repaying, defaulting and slashing.
//!
//! A borrower's vouchers stake tokens for them; a loan in a token may be
//! taken up to `max_loan_to_stake_ratio` percent of the stake vouched in that
//! token. Repaying principal and yield returns every matching stake with its
//! share of the yield; a loan that defaults is slashed: each matching voucher
//! loses `slash_bps` of their stake to the slash treasury.
//!
//! Each operation takes the records and values it reads from storage and
//! returns the records to store and the token transfers to make.
use vstd::prelude::*;
use crate::arith::{bps_of, tdiv};
use crate::errors::ContractError;
use crate::QuorumCreditContract;
use crate::types::{Address, AddressKind};

verus! {

/// Lifecycle of a loan. The operations here move a loan only from Active
/// to Repaid or Defaulted; partial and forgiven defaults are recorded by
/// other processes.
#[derive(Clone, Copy, Debug, PartialEq, Eq, Structural)]
pub enum LoanStatus {
    NoLoan,
    Active,
    Repaid,
    Defaulted,
    PartialDefault,
    ForgivenDefault,
}

/// Escrow state of a repayment awaiting oracle verification.
#[derive(Clone, Copy, Debug, PartialEq, Eq, Structural)]
pub enum EscrowStatus {
    NoEscrow,
    Pending,
    Released,
    Rejected,
}

/// A voucher's stake for a borrower.
#[derive(Clone, Copy, Debug, PartialEq, Eq, Structural)]
pub struct VouchRecord {
    pub voucher: Address,
    pub stake: i128,
    pub token: Address,
    pub vouch_timestamp: u64,
}

/// A loan.
#[derive(Clone, Copy, Debug, PartialEq, Eq, Structural)]
pub struct LoanRecord {
    pub id: u64,
    pub borrower: Address,
    pub amount: i128,
    pub amount_repaid: i128,
    pub total_yield: i128,
    pub status: LoanStatus,
    pub repaid: bool,
    pub defaulted: bool,
    pub escrow_status: EscrowStatus,
    pub created_at: u64,
    pub disbursement_timestamp: u64,
    pub repayment_timestamp: Option<u64>,
    pub deadline: u64,
    pub token_address: Address,
    pub reminder_sent: bool,
    pub risk_score: u32,
}

/// The protocol parameters the lending rules read.
#[derive(Clone, Copy, Debug, PartialEq, Eq, Structural)]
pub struct LendingConfig {
    pub token: Address,
    pub yield_bps: i128,
    pub slash_bps: i128,
    pub min_loan_amount: i128,
    pub loan_duration: u64,
    /// Maximum loan as a percentage of the vouched stake.
    pub max_loan_to_stake_ratio: u32,
    pub min_vouch_age_secs: u64,
    pub prepayment_penalty_bps: u32,
    pub liquidity_mining_rate_bps: u32,
    pub oracle_address: Option<Address>,
}

/// A transfer of `amount` of `token` from the contract to `to`.
#[derive(Clone, Copy, Debug, PartialEq, Eq, Structural)]
pub struct Transfer {
    pub token: Address,
    pub to: Address,
    pub amount: i128,
}

/// The zero address: the account with an all-zero key.
pub open spec fn is_zero(a: Address) -> bool {
    a.kind == AddressKind::Account && a.hi == 0 && a.lo == 0
}

/// Whether `a` is the zero address.
pub fn is_zero_address(a: Address) -> (b: bool)
    ensures
        b == is_zero(a),
{
    match a.kind {
        AddressKind::Account => a.hi == 0 && a.lo == 0,
        AddressKind::Contract => false,
    }
}

/// Total stake of the vouches in `token`.
pub open spec fn token_stake(vs: Seq<VouchRecord>, token: Address) -> int
    decreases vs.len(),
{
    if vs.len() == 0 {
        0
    } else {
        token_stake(vs.drop_last(), token) + if vs.last().token == token { vs.last().stake as int } else { 0 }
    }
}

/// Total stake of all vouches, whatever their token.
pub open spec fn all_stake(vs: Seq<VouchRecord>) -> int
    decreases vs.len(),
{
    if vs.len() == 0 { 0 } else { all_stake(vs.drop_last()) + vs.last().stake as int }
}

/// Every stake is positive.
pub open spec fn positive_stakes(vs: Seq<VouchRecord>) -> bool {
    forall|i: int| 0 <= i < vs.len() ==> #[trigger] vs[i].stake > 0
}

/// Every partial total of the stakes stays within `i128`.
pub open spec fn stakes_fit(vs: Seq<VouchRecord>) -> bool {
    forall|k: int| 0 <= k <= vs.len() ==> i128::MIN <= #[trigger] all_stake(vs.subrange(0, k)) <= i128::MAX
}

proof fn lemma_token_stake_bounds(vs: Seq<VouchRecord>, token: Address)
    requires
        positive_stakes(vs),
    ensures
        0 <= token_stake(vs, token) <= all_stake(vs),
    decreases vs.len(),
{
    if vs.len() > 0 {
        assert(positive_stakes(vs.drop_last()));
        lemma_token_stake_bounds(vs.drop_last(), token);
        assert(vs.last().stake > 0);
    }
}

proof fn lemma_all_stake_prefix_monotone(vs: Seq<VouchRecord>, j: int, k: int)
    requires
        positive_stakes(vs),
        0 <= j <= k <= vs.len(),
    ensures
        all_stake(vs.subrange(0, j)) <= all_stake(vs.subrange(0, k)),
    decreases k - j,
{
    if j < k {
        lemma_all_stake_prefix_monotone(vs, j, k - 1);
        assert(vs.subrange(0, k).drop_last() == vs.subrange(0, k - 1));
        assert(vs.subrange(0, k).last() == vs[k - 1]);
    }
}

impl QuorumCreditContract {
    /// Whether `voucher` has a vouch among a borrower's vouches `vs`.
    pub fn vouch_exists(vs: &Vec<VouchRecord>, voucher: Address) -> (b: bool)
        ensures
            b <==> exists|i: int| 0 <= i < vs@.len() && #[trigger] vs@[i].voucher == voucher,
    {
        let mut i: usize = 0;
        while i < vs.len()
            invariant
                i <= vs@.len(),
                forall|j: int| 0 <= j < i ==> #[trigger] vs@[j].voucher != voucher,
            decreases vs@.len() - i,
        {
            if vs[i].voucher == voucher {
                return true;
            }
            i = i + 1;
        }
        false
    }
}

/// Sums the stakes of the vouches in `token`.
pub fn sum_token_stake(vs: &Vec<VouchRecord>, token: Address) -> (total: i128)
    requires
        positive_stakes(vs@),
        stakes_fit(vs@),
    ensures
        total == token_stake(vs@, token),
{
    let mut total: i128 = 0;
    let mut i: usize = 0;
    while i < vs.len()
        invariant
            i <= vs@.len(),
            positive_stakes(vs@),
            stakes_fit(vs@),
            total == token_stake(vs@.subrange(0, i as int), token),
        decreases vs@.len() - i,
    {
        proof {
            let next = vs@.subrange(0, i + 1);
            assert(next.drop_last() == vs@.subrange(0, i as int));
            assert(positive_stakes(next));
            lemma_token_stake_bounds(next, vs@[i as int].token);
            lemma_token_stake_bounds(next, token);
            assert(0 <= i + 1 <= vs@.len());
            assert(all_stake(next) <= i128::MAX);
        }
        if vs[i].token == token {
            total = total + vs[i].stake;
        }
        i = i + 1;
    }
    assert(vs@.subrange(0, vs@.len() as int) == vs@);
    total
}


/// A voucher's share of `available` yield: in proportion to its stake.
pub open spec fn yield_share(available: int, stake: int, total: int) -> int {
    if total > 0 { tdiv(available * stake, total) } else { 0 }
}

/// Sum of the yield shares of the first `k` vouches in `token`.
pub open spec fn shares_sum(vs: Seq<VouchRecord>, token: Address, available: int, total: int, k: int) -> int
    decreases k,
{
    if k <= 0 {
        0
    } else {
        shares_sum(vs, token, available, total, k - 1) + if vs[k - 1].token == token {
            yield_share(available, vs[k - 1].stake as int, total)
        } else {
            0
        }
    }
}

/// The payouts of a full repayment: each vouch in `token`, in order,
/// gets its stake back with its yield share.
pub open spec fn repay_payouts(vs: Seq<VouchRecord>, token: Address, available: int, total: int) -> Seq<Transfer>
    decreases vs.len(),
{
    if vs.len() == 0 {
        Seq::empty()
    } else {
        let rest = repay_payouts(vs.drop_last(), token, available, total);
        let v = vs.last();
        if v.token == token {
            rest.push(Transfer { token, to: v.voucher, amount: (v.stake + yield_share(available, v.stake as int, total)) as i128 })
        } else {
            rest
        }
    }
}

/// Whether distributing `available` yield over the vouches in `token`
/// stays within `i128` and never hands out more than `available`.
pub open spec fn distribution_fits(vs: Seq<VouchRecord>, token: Address, available: int) -> bool {
    let total = token_stake(vs, token);
    &&& forall|i: int| 0 <= i < vs.len() && #[trigger] vs[i].token == token ==> {
        &&& i128::MIN <= available * vs[i].stake <= i128::MAX
        &&& vs[i].stake + yield_share(available, vs[i].stake as int, total) <= i128::MAX
    }
    &&& forall|k: int| 0 <= k <= vs.len() ==> i128::MIN <= #[trigger] shares_sum(vs, token, available, total, k) <= available
}

/// The vouches in `token` as `(voucher, stake)` pairs, in order.
pub open spec fn yield_lines(vs: Seq<VouchRecord>, token: Address, available: int, total: int) -> Seq<(Address, i128)>
    decreases vs.len(),
{
    if vs.len() == 0 {
        Seq::empty()
    } else {
        let rest = yield_lines(vs.drop_last(), token, available, total);
        let v = vs.last();
        if v.token == token { rest.push((v.voucher, yield_share(available, v.stake as int, total) as i128)) } else { rest }
    }
}

proof fn lemma_prefix_views(vs: Seq<VouchRecord>, i: int, token: Address, available: int, total: int)
    requires
        0 <= i < vs.len(),
    ensures
        repay_payouts(vs.subrange(0, i + 1), token, available, total) == if vs[i].token == token {
            repay_payouts(vs.subrange(0, i), token, available, total).push(Transfer {
                token,
                to: vs[i].voucher,
                amount: (vs[i].stake + yield_share(available, vs[i].stake as int, total)) as i128,
            })
        } else {
            repay_payouts(vs.subrange(0, i), token, available, total)
        },
        yield_lines(vs.subrange(0, i + 1), token, available, total) == if vs[i].token == token {
            yield_lines(vs.subrange(0, i), token, available, total).push(
                (vs[i].voucher, yield_share(available, vs[i].stake as int, total) as i128),
            )
        } else {
            yield_lines(vs.subrange(0, i), token, available, total)
        },
{
    assert(vs.subrange(0, i + 1).drop_last() == vs.subrange(0, i));
    assert(vs.subrange(0, i + 1).last() == vs[i]);
}

/// Distributes `available` yield over the vouches in `token`: returns the
/// payouts (stake plus share), the recorded `(voucher, share)` lines and the
/// total distributed.
pub fn distribute_yield(vs: &Vec<VouchRecord>, token: Address, available: i128) -> (r: (Vec<Transfer>, Vec<(Address, i128)>, i128))
    requires
        positive_stakes(vs@),
        stakes_fit(vs@),
        distribution_fits(vs@, token, available as int),
    ensures
        r.0@ == repay_payouts(vs@, token, available as int, token_stake(vs@, token)),
        r.1@ == yield_lines(vs@, token, available as int, token_stake(vs@, token)),
        r.2 == shares_sum(vs@, token, available as int, token_stake(vs@, token), vs@.len() as int),
{
    let total_stake = sum_token_stake(vs, token);
    let ghost total = total_stake as int;
    proof { lemma_token_stake_bounds(vs@, token); }
    let mut payouts: Vec<Transfer> = Vec::new();
    let mut lines: Vec<(Address, i128)> = Vec::new();
    let mut distributed: i128 = 0;
    let mut i: usize = 0;
    while i < vs.len()
        invariant
            i <= vs@.len(),
            total == token_stake(vs@, token),
            total == total_stake,
            total >= 0,
            distribution_fits(vs@, token, available as int),
            positive_stakes(vs@),
            payouts@ == repay_payouts(vs@.subrange(0, i as int), token, available as int, total),
            lines@ == yield_lines(vs@.subrange(0, i as int), token, available as int, total),
            distributed == shares_sum(vs@, token, available as int, total, i as int),
        decreases vs@.len() - i,
    {
        let v = vs[i];
        proof { lemma_prefix_views(vs@, i as int, token, available as int, total); }
        if v.token == token {
            assert(vs@[i as int].token == token);
            let share = if total_stake > 0 {
                proof { crate::arith::lemma_tdiv_bounds(available * v.stake, total_stake as int); }
                (available * v.stake) / total_stake
            } else {
                0
            };
            proof {
                assert(0 <= i + 1 <= vs@.len());
                assert(shares_sum(vs@, token, available as int, total, i + 1) <= available);
                assert(0 <= i <= vs@.len());
                assert(shares_sum(vs@, token, available as int, total, i as int) <= available);
            }
            assert(share == yield_share(available as int, v.stake as int, total));
            assert(distributed + share <= available);
            distributed = distributed + share;
            payouts.push(Transfer { token, to: v.voucher, amount: v.stake + share });
            lines.push((v.voucher, share));
        }
        i = i + 1;
    }
    assert(vs@.subrange(0, vs@.len() as int) == vs@);
    (payouts, lines, distributed)
}


proof fn lemma_token_stake_prefix(vs: Seq<VouchRecord>, token: Address, k: int)
    requires
        0 <= k < vs.len(),
    ensures
        token_stake(vs.subrange(0, k + 1), token) == token_stake(vs.subrange(0, k), token)
            + if vs[k].token == token { vs[k].stake as int } else { 0 },
{
    assert(vs.subrange(0, k + 1).drop_last() == vs.subrange(0, k));
    assert(vs.subrange(0, k + 1).last() == vs[k]);
}

proof fn lemma_shares_scaled(vs: Seq<VouchRecord>, token: Address, available: int, total: int, k: int)
    requires
        available >= 0,
        total > 0,
        positive_stakes(vs),
        0 <= k <= vs.len(),
    ensures
        shares_sum(vs, token, available, total, k) * total <= available * token_stake(vs.subrange(0, k), token),
        shares_sum(vs, token, available, total, k) >= 0,
    decreases k,
{
    if k > 0 {
        lemma_shares_scaled(vs, token, available, total, k - 1);
        lemma_token_stake_prefix(vs, token, k - 1);
        let prev = shares_sum(vs, token, available, total, k - 1);
        let ts = token_stake(vs.subrange(0, k - 1), token);
        if vs[k - 1].token == token {
            let st = vs[k - 1].stake as int;
            assert(st > 0);
            let sh = yield_share(available, st, total);
            assert(sh == (available * st) / total);
            assert(0 <= sh && sh * total <= available * st) by (nonlinear_arith)
                requires sh == (available * st) / total, available >= 0, st > 0, total > 0;
            assert((prev + sh) * total <= available * (ts + st)) by (nonlinear_arith)
                requires prev * total <= available * ts, sh * total <= available * st;
        }
    }
}

/// With non-negative yield and positive stakes, the shares handed out never
/// add up to more than the yield available, whatever the prefix considered.
pub proof fn lemma_shares_within_available(vs: Seq<VouchRecord>, token: Address, available: int, k: int)
    requires
        available >= 0,
        positive_stakes(vs),
        0 <= k <= vs.len(),
    ensures
        0 <= shares_sum(vs, token, available, token_stake(vs, token), k) <= available,
{
    let total = token_stake(vs, token);
    lemma_token_stake_bounds(vs, token);
    if total > 0 {
        lemma_shares_scaled(vs, token, available, total, k);
        lemma_token_stake_prefix_bound(vs, token, k);
        let s = shares_sum(vs, token, available, total, k);
        let pre = token_stake(vs.subrange(0, k), token);
        assert(s <= available) by (nonlinear_arith)
            requires s * total <= available * pre, pre <= total, total > 0, available >= 0;
    } else {
        lemma_shares_zero(vs, token, available, total, k);
    }
}

proof fn lemma_shares_zero(vs: Seq<VouchRecord>, token: Address, available: int, total: int, k: int)
    requires
        total <= 0,
        0 <= k <= vs.len(),
    ensures
        shares_sum(vs, token, available, total, k) == 0,
    decreases k,
{
    if k > 0 {
        lemma_shares_zero(vs, token, available, total, k - 1);
    }
}

proof fn lemma_token_stake_prefix_bound(vs: Seq<VouchRecord>, token: Address, k: int)
    requires
        positive_stakes(vs),
        0 <= k <= vs.len(),
    ensures
        token_stake(vs.subrange(0, k), token) <= token_stake(vs, token),
    decreases vs.len() - k,
{
    if k < vs.len() {
        lemma_token_stake_prefix(vs, token, k);
        lemma_token_stake_prefix_bound(vs, token, k + 1);
        assert(vs[k].stake > 0);
    } else {
        assert(vs.subrange(0, k) == vs);
    }
}


/// Referral bonus rate used when none is configured, in basis points.
pub const DEFAULT_REFERRAL_BONUS_BPS: u32 = 100;

/// A loan's status moves only forward: from Active to Repaid or Defaulted.
pub open spec fn status_advances(from: LoanStatus, to: LoanStatus) -> bool {
    from == to || (from == LoanStatus::Active && (to == LoanStatus::Repaid || to == LoanStatus::Defaulted))
}

/// Principal plus yield.
pub open spec fn total_owed(l: LoanRecord) -> int {
    l.amount + l.total_yield
}

/// What is left to repay.
pub open spec fn outstanding(l: LoanRecord) -> int {
    total_owed(l) - l.amount_repaid
}

/// Penalty for repaying before the deadline: `penalty_bps` of the
/// principal not yet covered by repayments.
pub open spec fn prepayment_penalty(l: LoanRecord, now: u64, penalty_bps: u32) -> int {
    if l.deadline > now && penalty_bps > 0 {
        let remaining_principal = l.amount - tdiv(l.amount_repaid * l.amount, total_owed(l));
        bps_of(remaining_principal, penalty_bps as int)
    } else {
        0
    }
}

/// Whether the penalty arithmetic stays within `i128` (and divides by a
/// non-zero total).
pub open spec fn penalty_fits(l: LoanRecord, now: u64, penalty_bps: u32) -> bool {
    l.deadline > now && penalty_bps > 0 ==> {
        let remaining_principal = l.amount - tdiv(l.amount_repaid * l.amount, total_owed(l));
        &&& total_owed(l) != 0
        &&& i128::MIN <= l.amount_repaid * l.amount <= i128::MAX
        &&& (total_owed(l) == -1 ==> l.amount_repaid * l.amount != i128::MIN)
        &&& i128::MIN <= remaining_principal <= i128::MAX
        &&& i128::MIN <= remaining_principal * penalty_bps <= i128::MAX
    }
}

/// Sum of the payout amounts.
pub open spec fn transfers_total(ts: Seq<Transfer>) -> int
    decreases ts.len(),
{
    if ts.len() == 0 { 0 } else { transfers_total(ts.drop_last()) + ts.last().amount as int }
}

/// Whether a repayment of `payment` at `now` goes through the checks
/// that abort the call: before the deadline, a payment in `1..=outstanding`,
/// and every amount involved within `i128` (and the repayment counter
/// within `u32`). `fee_treasury_set` says whether a fee treasury is set.
pub open spec fn repay_fits(
    l: LoanRecord,
    payment: i128,
    now: u64,
    cfg: LendingConfig,
    vs: Seq<VouchRecord>,
    protocol_fee_bps: u32,
    bonus_bps: u32,
    contract_balance: i128,
    repayment_count: u32,
    fee_treasury_set: bool,
) -> bool {
    let available = l.total_yield + prepayment_penalty(l, now, cfg.prepayment_penalty_bps);
    let total = token_stake(vs, l.token_address);
    let payouts = repay_payouts(vs, l.token_address, available, total);
    let fee = tdiv(l.amount * protocol_fee_bps, 10_000);
    let base = contract_balance + payment - (if fee > 0 && fee_treasury_set { fee } else { 0 });
    &&& now <= l.deadline
    &&& i128::MIN <= total_owed(l) <= i128::MAX
    &&& i128::MIN <= outstanding(l) <= i128::MAX
    &&& 0 < payment <= outstanding(l)
    &&& penalty_fits(l, now, cfg.prepayment_penalty_bps)
    &&& l.amount_repaid + payment >= total_owed(l) ==> {
        &&& positive_stakes(vs)
        &&& stakes_fit(vs)
        &&& i128::MIN <= available <= i128::MAX
        &&& distribution_fits(vs, l.token_address, available)
        &&& i128::MIN <= l.amount * protocol_fee_bps <= i128::MAX
        &&& i128::MIN <= l.amount * bonus_bps <= i128::MAX
        &&& repayment_count < u32::MAX
        &&& i128::MIN <= contract_balance + payment <= i128::MAX
        &&& i128::MIN <= base <= i128::MAX
        &&& forall|k: int| 0 <= k <= payouts.len() ==> i128::MIN <= base - #[trigger] transfers_total(
            payouts.subrange(0, k),
        ) <= i128::MAX
    }
}

/// What a repayment does: the loan to store, whether it is now fully
/// repaid, and the transfers from the contract in order (protocol fee,
/// each voucher's stake and yield, referral bonus); the yield lines to
/// record; the new repayment count.
pub struct RepayOutcome {
    pub loan: LoanRecord,
    pub fully_repaid: bool,
    pub transfers: Vec<Transfer>,
    pub yield_distribution: Vec<(Address, i128)>,
    pub repayment_count: Option<u32>,
    pub referral_bonus: Option<(Address, i128)>,
}

/// Repay an active loan, partially or fully. The borrower pays `payment`
/// (in `1..=outstanding`) to the contract. When the loan becomes fully
/// repaid the protocol fee goes to the fee treasury (when one is set), each
/// voucher in the loan's token gets back their stake with their share of
/// the yield plus the prepayment penalty, a registered referrer gets the
/// referral bonus when the contract can cover it, and the loan is Repaid.
#[verifier::loop_isolation(false)]
pub fn repay(
    stored: Option<LoanRecord>,
    borrower: Address,
    payment: i128,
    now: u64,
    cfg: &LendingConfig,
    vouches: &Vec<VouchRecord>,
    protocol_fee_bps: Option<u32>,
    fee_treasury: Option<Address>,
    referrer: Option<Address>,
    referral_bonus_bps: Option<u32>,
    contract_balance: i128,
    repayment_count: Option<u32>,
) -> (r: Result<RepayOutcome, ContractError>)
    requires
        stored is Some && stored->0.borrower == borrower && stored->0.status == LoanStatus::Active ==> repay_fits(
            stored->0,
            payment,
            now,
            *cfg,
            vouches@,
            protocol_fee_bps.unwrap_or(0),
            referral_bonus_bps.unwrap_or(DEFAULT_REFERRAL_BONUS_BPS),
            contract_balance,
            repayment_count.unwrap_or(0),
            fee_treasury is Some,
        ),
    ensures
        stored is None ==> r == Err::<RepayOutcome, ContractError>(ContractError::NoActiveLoan),
        stored is Some && stored->0.borrower != borrower ==> r == Err::<RepayOutcome, ContractError>(
            ContractError::UnauthorizedCaller,
        ),
        stored is Some && stored->0.borrower == borrower && stored->0.status != LoanStatus::Active ==> r == Err::<
            RepayOutcome,
            ContractError,
        >(ContractError::NoActiveLoan),
        r matches Ok(o) ==> stored is Some && status_advances(stored->0.status, o.loan.status)
            && o.loan.amount_repaid <= total_owed(stored->0),
        stored is Some && stored->0.borrower == borrower && stored->0.status == LoanStatus::Active ==> (r matches Ok(o) && {
            let l = stored->0;
            let token = l.token_address;
            let available = l.total_yield + prepayment_penalty(l, now, cfg.prepayment_penalty_bps);
            let total = token_stake(vouches@, token);
            let fee = tdiv(l.amount * protocol_fee_bps.unwrap_or(0), 10_000);
            let fee_paid = fee > 0 && fee_treasury is Some;
            let payouts = repay_payouts(vouches@, token, available, total);
            let full = l.amount_repaid + payment >= total_owed(l);
            let bonus = tdiv(l.amount * referral_bonus_bps.unwrap_or(DEFAULT_REFERRAL_BONUS_BPS), 10_000);
            let balance = contract_balance + payment - (if fee_paid { fee } else { 0 }) - transfers_total(payouts);
            let bonus_paid = full && referrer is Some && bonus > 0 && balance >= bonus;
            &&& o.fully_repaid == full
            &&& o.loan.amount_repaid == l.amount_repaid + payment
            &&& o.loan.status == (if full { LoanStatus::Repaid } else { LoanStatus::Active })
            &&& o.loan.repayment_timestamp == (if full { Some(now) } else { l.repayment_timestamp })
            &&& o.loan == (LoanRecord {
                amount_repaid: o.loan.amount_repaid,
                status: o.loan.status,
                repayment_timestamp: o.loan.repayment_timestamp,
                ..l
            })
            &&& !full ==> o.transfers@.len() == 0 && o.yield_distribution@.len() == 0 && o.repayment_count is None
                && o.referral_bonus is None
            &&& full ==> {
                &&& o.transfers@ == (if fee_paid {
                    seq![Transfer { token, to: fee_treasury->0, amount: fee as i128 }]
                } else {
                    Seq::empty()
                }) + payouts + (if bonus_paid {
                    seq![Transfer { token, to: referrer->0, amount: bonus as i128 }]
                } else {
                    Seq::empty()
                })
                &&& o.yield_distribution@ == yield_lines(vouches@, token, available, total)
                &&& o.repayment_count == Some((repayment_count.unwrap_or(0) + 1) as u32)
                &&& o.referral_bonus == (if bonus_paid { Some((referrer->0, bonus as i128)) } else { None })
            }
        }),
{
    let mut loan = match stored {
        Some(l) => l,
        None => {
            return Err(ContractError::NoActiveLoan);
        },
    };
    if loan.borrower != borrower {
        return Err(ContractError::UnauthorizedCaller);
    }
    if loan.status != LoanStatus::Active {
        return Err(ContractError::NoActiveLoan);
    }
    let ghost l = loan;
    let total_owed = loan.amount + loan.total_yield;
    let time_remaining = if loan.deadline > now { loan.deadline - now } else { 0 };
    let mut penalty: i128 = 0;
    if time_remaining > 0 && cfg.prepayment_penalty_bps > 0 {
        let prod = loan.amount_repaid * loan.amount;
        proof { crate::arith::lemma_tdiv_bounds(prod as int, total_owed as int); }
        let remaining_principal = loan.amount - prod / total_owed;
        penalty = remaining_principal * (cfg.prepayment_penalty_bps as i128) / 10_000;
    }
    assert(penalty == prepayment_penalty(l, now, cfg.prepayment_penalty_bps));
    loan.amount_repaid = loan.amount_repaid + payment;
    let fully_repaid = loan.amount_repaid >= total_owed;
    if !fully_repaid {
        return Ok(RepayOutcome {
            loan,
            fully_repaid: false,
            transfers: Vec::new(),
            yield_distribution: Vec::new(),
            repayment_count: None,
            referral_bonus: None,
        });
    }
    let token = loan.token_address;
    let mut transfers: Vec<Transfer> = Vec::new();
    let fee_bps = match protocol_fee_bps {
        Some(b) => b,
        None => 0,
    };
    let fee = loan.amount * (fee_bps as i128) / 10_000;
    let mut balance = contract_balance + payment;
    if fee > 0 {
        match fee_treasury {
            Some(t) => {
                transfers.push(Transfer { token, to: t, amount: fee });
                balance = balance - fee;
            },
            None => {},
        }
    }
    let ghost head = transfers@;
    let ghost base = balance as int;
    let available = loan.total_yield + penalty;
    let (payouts, lines, _distributed) = distribute_yield(vouches, token, available);
    let ghost total = token_stake(vouches@, token);
    let mut i: usize = 0;
    while i < payouts.len()
        invariant
            i <= payouts@.len(),
            payouts@ == repay_payouts(vouches@, token, available as int, total),
            transfers@ == head + payouts@.subrange(0, i as int),
            balance == base - transfers_total(payouts@.subrange(0, i as int)),
            forall|k: int| 0 <= k <= payouts@.len() ==> i128::MIN <= base - #[trigger] transfers_total(
                payouts@.subrange(0, k),
            ) <= i128::MAX,
        decreases payouts@.len() - i,
    {
        assert(payouts@.subrange(0, i + 1).drop_last() == payouts@.subrange(0, i as int));
        assert(payouts@.subrange(0, i + 1).last() == payouts@[i as int]);
        assert(0 <= i + 1 <= payouts@.len());
        assert(i128::MIN <= base - transfers_total(payouts@.subrange(0, i + 1)) <= i128::MAX);
        transfers.push(payouts[i]);
        balance = balance - payouts[i].amount;
        i = i + 1;
    }
    assert(payouts@.subrange(0, payouts@.len() as int) == payouts@);
    loan.status = LoanStatus::Repaid;
    loan.repayment_timestamp = Some(now);
    let mut referral_bonus = None;
    match referrer {
        Some(who) => {
            let bonus_bps = match referral_bonus_bps {
                Some(b) => b,
                None => DEFAULT_REFERRAL_BONUS_BPS,
            };
            let bonus = loan.amount * (bonus_bps as i128) / 10_000;
            if bonus > 0 && balance >= bonus {
                transfers.push(Transfer { token, to: who, amount: bonus });
                referral_bonus = Some((who, bonus));
            }
        },
        None => {},
    }
    let count = match repayment_count {
        Some(c) => c,
        None => 0,
    };
    Ok(RepayOutcome {
        loan,
        fully_repaid: true,
        transfers,
        yield_distribution: lines,
        repayment_count: Some(count + 1),
        referral_bonus,
    })
}

} // verus!
