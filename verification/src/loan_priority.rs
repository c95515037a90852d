//! Loan priority and subordination (senior / mezzanine / junior tranches).
//!
//! Loans of a pool are tagged with a tranche and kept in a queue ordered
//! Senior, then Mezzanine, then Junior (keeping the given order within a
//! tranche). Recovered default proceeds are routed through that queue as a
//! waterfall: each loan is made whole in turn until the proceeds run out.
//! Tranche changes go through multi-admin proposals.
//!
//! Each operation takes what is stored (queue, counters, proposal) and the
//! facts the caller looked up, and returns what to store and pay out.
use vstd::prelude::*;
use crate::errors::ContractError;
use crate::types::Address;

verus! {

/// Priority tier of a loan; lower ranks are paid first.
#[derive(Clone, Copy, Debug, PartialEq, Eq, Structural)]
pub enum LoanPriority {
    Senior,
    Mezzanine,
    Junior,
}

pub open spec fn spec_rank(p: LoanPriority) -> nat {
    match p {
        LoanPriority::Senior => 0,
        LoanPriority::Mezzanine => 1,
        LoanPriority::Junior => 2,
    }
}

impl LoanPriority {
    /// Sort rank used to order the priority queue (0 = paid first).
    pub fn rank(&self) -> (r: u32)
        ensures
            r == spec_rank(*self),
    {
        match self {
            LoanPriority::Senior => 0,
            LoanPriority::Mezzanine => 1,
            LoanPriority::Junior => 2,
        }
    }
}

/// A loan tagged with its tranche.
#[derive(Clone, Copy, Debug, PartialEq, Eq, Structural)]
pub struct PriorityLoanEntry {
    pub loan_id: u64,
    pub borrower: Address,
    pub priority: LoanPriority,
    pub amount: i128,
}

/// The ordered priority queue of a pool.
pub struct PriorityQueue {
    pub pool_id: u64,
    pub entries: Vec<PriorityLoanEntry>,
    pub created_at: u64,
    pub updated_at: u64,
}

/// How much one loan received in a waterfall run.
#[derive(Clone, Copy, Debug, PartialEq, Eq, Structural)]
pub struct WaterfallDistributionEntry {
    pub loan_id: u64,
    pub borrower: Address,
    pub priority: LoanPriority,
    pub owed: i128,
    pub paid: i128,
}

/// One transfer of recovered proceeds to a borrower, in the loan's token.
#[derive(Clone, Copy, Debug, PartialEq, Eq, Structural)]
pub struct Payout {
    pub loan_id: u64,
    pub to: Address,
    pub amount: i128,
    pub token: Address,
}

/// A full record of one waterfall run.
pub struct WaterfallRun {
    pub run_id: u64,
    pub pool_id: u64,
    pub total_proceeds: i128,
    pub distributed: i128,
    pub shortfall: i128,
    pub timestamp: u64,
    pub entries: Vec<WaterfallDistributionEntry>,
}

/// A pending proposal to change a loan's tranche.
pub struct PriorityChangeProposal {
    pub proposal_id: u64,
    pub pool_id: u64,
    pub loan_id: u64,
    pub new_priority: LoanPriority,
    pub proposer: Address,
    pub approvals: Vec<Address>,
    pub created_at: u64,
    pub executed: bool,
}

/// The entries of tranche `r`, in their order in `s`.
pub open spec fn tranche(s: Seq<PriorityLoanEntry>, r: nat) -> Seq<PriorityLoanEntry>
    decreases s.len(),
{
    if s.len() == 0 {
        Seq::empty()
    } else if spec_rank(s.last().priority) == r {
        tranche(s.drop_last(), r).push(s.last())
    } else {
        tranche(s.drop_last(), r)
    }
}

/// `s` ordered Senior, Mezzanine, Junior, each tranche in its order in `s`.
pub open spec fn sorted_by_priority(s: Seq<PriorityLoanEntry>) -> Seq<PriorityLoanEntry> {
    tranche(s, 0) + tranche(s, 1) + tranche(s, 2)
}

proof fn lemma_tranche_ranks(s: Seq<PriorityLoanEntry>, r: nat)
    ensures
        forall|i: int| 0 <= i < tranche(s, r).len() ==> spec_rank(#[trigger] tranche(s, r)[i].priority) == r,
    decreases s.len(),
{
    if s.len() > 0 {
        lemma_tranche_ranks(s.drop_last(), r);
    }
}

/// The three tranches together hold every entry.
proof fn lemma_tranche_lengths(s: Seq<PriorityLoanEntry>)
    ensures
        tranche(s, 0).len() + tranche(s, 1).len() + tranche(s, 2).len() == s.len(),
    decreases s.len(),
{
    if s.len() > 0 {
        lemma_tranche_lengths(s.drop_last());
    }
}

proof fn lemma_tranche_push(s: Seq<PriorityLoanEntry>, e: PriorityLoanEntry, r: nat)
    ensures
        tranche(s.push(e), r) == if spec_rank(e.priority) == r { tranche(s, r).push(e) } else { tranche(s, r) },
{
    assert(s.push(e).drop_last() == s);
}

/// Insertion-sort `entries` by tranche rank (Senior first), keeping the
/// order of entries within a tranche.
pub fn sort_by_priority(entries: &Vec<PriorityLoanEntry>) -> (r: Vec<PriorityLoanEntry>)
    ensures
        r@ == sorted_by_priority(entries@),
{
    let mut sorted: Vec<PriorityLoanEntry> = Vec::new();
    let n = entries.len();
    let mut k: usize = 0;
    assert(entries@.subrange(0, 0) == Seq::<PriorityLoanEntry>::empty());
    assert(sorted@ == sorted_by_priority(entries@.subrange(0, 0)));
    while k < n
        invariant
            n == entries@.len(),
            k <= n,
            sorted@ == sorted_by_priority(entries@.subrange(0, k as int)),
        decreases n - k,
    {
        let entry = entries[k];
        let ghost pre = entries@.subrange(0, k as int);
        let ghost t0 = tranche(pre, 0);
        let ghost t1 = tranche(pre, 1);
        let ghost t2 = tranche(pre, 2);
        proof {
            lemma_tranche_ranks(pre, 0);
            lemma_tranche_ranks(pre, 1);
            lemma_tranche_ranks(pre, 2);
        }
        let r = entry.priority.rank();
        let ghost boundary: int = if r == 0 { t0.len() as int } else if r == 1 { (t0.len() + t1.len()) as int } else {
            (t0.len() + t1.len() + t2.len()) as int
        };
        assert forall|j: int| 0 <= j < sorted@.len() implies
            (#[trigger] spec_rank(sorted@[j].priority) > r <==> j >= boundary) by {
            if j < t0.len() {
                assert(sorted@[j] == t0[j]);
            } else if j < t0.len() + t1.len() {
                assert(sorted@[j] == t1[j - t0.len()]);
            } else {
                assert(sorted@[j] == t2[j - t0.len() - t1.len()]);
            }
        }
        let mut insert_at = sorted.len();
        let mut i: usize = 0;
        while i < sorted.len()
            invariant_except_break
                insert_at == sorted@.len(),
            invariant
                i <= sorted@.len(),
                forall|j: int| 0 <= j < i ==> spec_rank(#[trigger] sorted@[j].priority) <= r,
            ensures
                insert_at <= sorted@.len(),
                forall|j: int| 0 <= j < insert_at ==> spec_rank(#[trigger] sorted@[j].priority) <= r,
                insert_at < sorted@.len() ==> spec_rank(sorted@[insert_at as int].priority) > r,
            decreases sorted@.len() - i,
        {
            if sorted[i].priority.rank() > r {
                insert_at = i;
                break;
            }
            i = i + 1;
        }
        proof {
            assert(sorted@.len() == t0.len() + t1.len() + t2.len());
            if boundary < insert_at {
                assert(spec_rank(sorted@[boundary].priority) <= r);
                assert(spec_rank(sorted@[boundary].priority) > r);
            }
            if insert_at < boundary {
                assert(spec_rank(sorted@[insert_at as int].priority) > r);
            }
        }
        assert(insert_at == boundary);
        sorted.insert(insert_at, entry);
        proof {
            let next = entries@.subrange(0, k + 1);
            assert(next == pre.push(entry));
            lemma_tranche_push(pre, entry, 0);
            lemma_tranche_push(pre, entry, 1);
            lemma_tranche_push(pre, entry, 2);
            if r == 0 {
                assert(sorted@ == t0.push(entry) + t1 + t2);
            } else if r == 1 {
                assert(sorted@ == t0 + t1.push(entry) + t2);
            } else {
                assert(sorted@ == t0 + t1 + t2.push(entry));
            }
        }
        k = k + 1;
    }
    assert(entries@.subrange(0, n as int) == entries@);
    sorted
}

/// Build (or replace) the priority queue of `pool_id`; refuses an empty set
/// of loans.
pub fn create_loan_priority_queue(pool_id: u64, loans: &Vec<PriorityLoanEntry>, now: u64) -> (r: Result<
    PriorityQueue,
    ContractError,
>)
    ensures
        loans@.len() == 0 <==> r is Err,
        r is Err ==> r matches Err(ContractError::InvalidAmount),
        r matches Ok(q) ==> q.pool_id == pool_id && q.entries@ == sorted_by_priority(loans@) && q.created_at == now
            && q.updated_at == now,
{
    if loans.len() == 0 {
        return Err(ContractError::InvalidAmount);
    }
    let sorted = sort_by_priority(loans);
    Ok(PriorityQueue { pool_id, entries: sorted, created_at: now, updated_at: now })
}

/// The entries of a pool's queue, or none when it has no queue.
pub fn get_loan_priority_queue(stored: Option<PriorityQueue>) -> (r: Vec<PriorityLoanEntry>)
    ensures
        r@ == match stored {
            Some(q) => q.entries@,
            None => Seq::empty(),
        },
{
    match stored {
        Some(q) => q.entries,
        None => Vec::new(),
    }
}

/// What a loan owed `amount` is paid when `remaining` proceeds are left.
pub open spec fn waterfall_paid(remaining: int, amount: int) -> int {
    if remaining >= amount {
        amount
    } else if remaining > 0 {
        remaining
    } else {
        0
    }
}

/// Proceeds left after paying the first `k` entries.
pub open spec fn waterfall_remaining(entries: Seq<PriorityLoanEntry>, total: int, k: int) -> int
    decreases k,
{
    if k <= 0 {
        total
    } else {
        let prev = waterfall_remaining(entries, total, k - 1);
        prev - waterfall_paid(prev, entries[k - 1].amount as int)
    }
}

/// Whether every running total of the waterfall fits in `i128`.
pub open spec fn waterfall_fits(entries: Seq<PriorityLoanEntry>, total: int) -> bool {
    forall|k: int| 0 <= k <= entries.len() ==> {
        &&& i128::MIN <= #[trigger] waterfall_remaining(entries, total, k) <= i128::MAX
        &&& i128::MIN <= total - waterfall_remaining(entries, total, k) <= i128::MAX
    }
}

/// The distribution line of entry `k`.
pub open spec fn waterfall_line(entries: Seq<PriorityLoanEntry>, total: int, k: int) -> WaterfallDistributionEntry {
    WaterfallDistributionEntry {
        loan_id: entries[k].loan_id,
        borrower: entries[k].borrower,
        priority: entries[k].priority,
        owed: entries[k].amount,
        paid: waterfall_paid(waterfall_remaining(entries, total, k), entries[k].amount as int) as i128,
    }
}

/// The payouts of the first `k` entries, in queue order: each entry paid a
/// positive amount gets it in its loan's token (`tokens[j]`).
pub open spec fn waterfall_payouts(
    entries: Seq<PriorityLoanEntry>,
    total: int,
    tokens: Seq<Result<Address, ContractError>>,
    k: int,
) -> Seq<Payout>
    decreases k,
{
    if k <= 0 {
        Seq::empty()
    } else {
        let rest = waterfall_payouts(entries, total, tokens, k - 1);
        let line = waterfall_line(entries, total, k - 1);
        if line.paid > 0 {
            rest.push(Payout { loan_id: line.loan_id, to: line.borrower, amount: line.paid, token: tokens[k - 1]->Ok_0 })
        } else {
            rest
        }
    }
}

/// Result of routing proceeds: the run record, the transfers to make, and
/// the queue to keep for the pool afterwards (none: a run consumes it).
pub struct WaterfallOutcome {
    pub run: WaterfallRun,
    pub payouts: Vec<Payout>,
    pub queue: Option<PriorityQueue>,
}

/// Route recovered default proceeds through a pool's queue: each loan in
/// queue order is paid what it is owed while proceeds remain, the last one
/// paid only what is left. `loan_tokens[i]` is the result of looking up the
/// loan of entry `i` (its token, or why it could not be found); a paid
/// entry whose loan cannot be found aborts the run with that error.
/// `run_counter` is the stored run counter; the run takes the next id. A
/// run consumes the queue (no queue is left to store), so the same loans
/// cannot be paid twice.
pub fn route_default_proceeds(
    stored: Option<PriorityQueue>,
    loan_tokens: &Vec<Result<Address, ContractError>>,
    run_counter: Option<u64>,
    pool_id: u64,
    total_proceeds: i128,
    now: u64,
) -> (r: Result<WaterfallOutcome, ContractError>)
    requires
        stored matches Some(q) ==> q.entries@.len() == loan_tokens@.len() && waterfall_fits(
            q.entries@,
            total_proceeds as int,
        ),
    ensures
        total_proceeds < 0 ==> r == Err::<WaterfallOutcome, ContractError>(ContractError::InvalidAmount),
        total_proceeds >= 0 && stored is None ==> r == Err::<WaterfallOutcome, ContractError>(
            ContractError::InvalidAmount,
        ),
        r matches Ok(o) ==> {
            let q = stored->0;
            let es = q.entries@;
            let total = total_proceeds as int;
            &&& total_proceeds >= 0
            &&& forall|k: int| 0 <= k < es.len() && #[trigger] waterfall_line(es, total, k).paid > 0
                ==> loan_tokens@[k] is Ok
            &&& run_counter.unwrap_or(0) < u64::MAX
            &&& o.run.run_id == run_counter.unwrap_or(0) + 1
            &&& o.run.pool_id == pool_id
            &&& o.run.total_proceeds == total_proceeds
            &&& o.run.distributed == total - waterfall_remaining(es, total, es.len() as int)
            &&& o.run.shortfall == waterfall_remaining(es, total, es.len() as int)
            &&& o.run.timestamp == now
            &&& o.run.entries@.len() == es.len()
            &&& forall|k: int| 0 <= k < es.len() ==> #[trigger] o.run.entries@[k] == waterfall_line(es, total, k)
            &&& o.payouts@ == waterfall_payouts(es, total, loan_tokens@, es.len() as int)
            &&& forall|p: int| 0 <= p < o.payouts@.len() ==> (#[trigger] o.payouts@[p]).amount > 0
            &&& o.queue is None
        },
        r is Err && total_proceeds >= 0 && stored is Some ==> {
            ||| (exists|k: int| 0 <= k < stored->0.entries@.len()
                && #[trigger] waterfall_line(stored->0.entries@, total_proceeds as int, k).paid > 0
                && loan_tokens@[k] is Err)
            ||| (run_counter.unwrap_or(0) == u64::MAX && r == Err::<WaterfallOutcome, ContractError>(
                ContractError::ArithmeticError,
            ))
        },
{
    if total_proceeds < 0 {
        return Err(ContractError::InvalidAmount);
    }
    let q = match stored {
        Some(q) => q,
        None => {
            return Err(ContractError::InvalidAmount);
        },
    };
    let ghost es = q.entries@;
    let ghost total = total_proceeds as int;
    let n = q.entries.len();
    let mut remaining = total_proceeds;
    let mut distributed: i128 = 0;
    let mut lines: Vec<WaterfallDistributionEntry> = Vec::new();
    let mut payouts: Vec<Payout> = Vec::new();
    let mut k: usize = 0;
    while k < n
        invariant
            n == es.len(),
            es == q.entries@,
            total_proceeds >= 0,
            stored is Some,
            stored->0.entries@ == es,
            n == loan_tokens@.len(),
            k <= n,
            total == total_proceeds as int,
            waterfall_fits(es, total),
            remaining as int == waterfall_remaining(es, total, k as int),
            distributed as int == total - remaining as int,
            lines@.len() == k,
            forall|j: int| 0 <= j < k ==> #[trigger] lines@[j] == waterfall_line(es, total, j),
            forall|j: int| 0 <= j < k && #[trigger] waterfall_line(es, total, j).paid > 0 ==> loan_tokens@[j] is Ok,
            forall|p: int| 0 <= p < payouts@.len() ==> (#[trigger] payouts@[p]).amount > 0,
            payouts@ == waterfall_payouts(es, total, loan_tokens@, k as int),
        decreases n - k,
    {
        let e = q.entries[k];
        let paid = if remaining >= e.amount {
            e.amount
        } else if remaining > 0 {
            remaining
        } else {
            0
        };
        proof {
            assert(waterfall_remaining(es, total, k + 1) == remaining - paid);
            assert(0 <= k + 1 <= es.len());
        }
        remaining = remaining - paid;
        distributed = distributed + paid;
        if paid > 0 {
            match &loan_tokens[k] {
                Ok(token) => {
                    payouts.push(Payout { loan_id: e.loan_id, to: e.borrower, amount: paid, token: *token });
                },
                Err(err) => {
                    assert(waterfall_line(es, total, k as int).paid > 0);
                    return Err(*err);
                },
            }
        }
        lines.push(WaterfallDistributionEntry {
            loan_id: e.loan_id,
            borrower: e.borrower,
            priority: e.priority,
            owed: e.amount,
            paid,
        });
        k = k + 1;
    }
    let prev = match run_counter {
        Some(c) => c,
        None => 0,
    };
    if prev == u64::MAX {
        return Err(ContractError::ArithmeticError);
    }
    let run = WaterfallRun {
        run_id: prev + 1,
        pool_id,
        total_proceeds,
        distributed,
        shortfall: total_proceeds - distributed,
        timestamp: now,
        entries: lines,
    };
    Ok(WaterfallOutcome { run, payouts, queue: None })
}

/// Whether `a` occurs in `s`.
pub fn contains_address(s: &Vec<Address>, a: Address) -> (b: bool)
    ensures
        b == s@.contains(a),
{
    let mut i: usize = 0;
    while i < s.len()
        invariant
            i <= s@.len(),
            forall|j: int| 0 <= j < i ==> s@[j] != a,
        decreases s@.len() - i,
    {
        if s[i] == a {
            return true;
        }
        i = i + 1;
    }
    false
}

/// Propose a change of a loan's tranche. Only admins may propose; the
/// proposer is the first approval and the proposal takes the next id after
/// `proposal_counter`.
pub fn propose_priority_change(
    proposer_is_admin: bool,
    proposal_counter: Option<u64>,
    proposer: Address,
    pool_id: u64,
    loan_id: u64,
    new_priority: LoanPriority,
    now: u64,
) -> (r: Result<PriorityChangeProposal, ContractError>)
    ensures
        !proposer_is_admin ==> r == Err::<PriorityChangeProposal, ContractError>(ContractError::UnauthorizedCaller),
        proposer_is_admin && proposal_counter.unwrap_or(0) == u64::MAX ==> r == Err::<
            PriorityChangeProposal,
            ContractError,
        >(ContractError::ArithmeticError),
        proposer_is_admin && proposal_counter.unwrap_or(0) < u64::MAX ==> (r matches Ok(p) && p.proposal_id
            == proposal_counter.unwrap_or(0) + 1 && p.pool_id == pool_id && p.loan_id == loan_id && p.new_priority
            == new_priority && p.proposer == proposer && p.approvals@ == seq![proposer] && p.created_at == now
            && !p.executed),
{
    if !proposer_is_admin {
        return Err(ContractError::UnauthorizedCaller);
    }
    let prev = match proposal_counter {
        Some(c) => c,
        None => 0,
    };
    if prev == u64::MAX {
        return Err(ContractError::ArithmeticError);
    }
    let mut approvals = Vec::new();
    approvals.push(proposer);
    Ok(PriorityChangeProposal {
        proposal_id: prev + 1,
        pool_id,
        loan_id,
        new_priority,
        proposer,
        approvals,
        created_at: now,
        executed: false,
    })
}

/// `s` with the tranche of loan `loan_id` replaced by `p`.
pub open spec fn retagged(s: Seq<PriorityLoanEntry>, loan_id: u64, p: LoanPriority) -> Seq<PriorityLoanEntry> {
    Seq::new(s.len(), |i: int| if s[i].loan_id == loan_id { PriorityLoanEntry { priority: p, ..s[i] } } else { s[i] })
}

/// Result of an approval: the proposal to store, and the re-sorted queue to
/// store when the change was applied.
pub struct ApprovalOutcome {
    pub proposal: PriorityChangeProposal,
    pub queue: Option<PriorityQueue>,
}

/// Approve a pending proposal. Only admins may approve; an approver is
/// recorded once. When the distinct approvals reach `admin_threshold` the
/// loan is re-tagged in the pool's queue (`stored_queue`), the queue
/// re-sorted, and the proposal marked executed.
pub fn approve_priority_change(
    approver_is_admin: bool,
    stored: Option<PriorityChangeProposal>,
    stored_queue: Option<PriorityQueue>,
    approver: Address,
    admin_threshold: u32,
    now: u64,
) -> (r: Result<ApprovalOutcome, ContractError>)
    ensures
        !approver_is_admin ==> r == Err::<ApprovalOutcome, ContractError>(ContractError::UnauthorizedCaller),
        approver_is_admin && stored is None ==> r == Err::<ApprovalOutcome, ContractError>(
            ContractError::InvalidAmount,
        ),
        approver_is_admin && stored is Some && stored->0.executed ==> r == Err::<ApprovalOutcome, ContractError>(
            ContractError::InvalidAmount,
        ),
        approver_is_admin && stored is Some && !stored->0.executed ==> {
            let p = stored->0;
            let approvals = if p.approvals@.contains(approver) { p.approvals@ } else { p.approvals@.push(approver) };
            let met = approvals.len() >= admin_threshold;
            &&& (met && stored_queue is None) ==> r == Err::<ApprovalOutcome, ContractError>(
                ContractError::InvalidAmount,
            )
            &&& (!met || stored_queue is Some) ==> (r matches Ok(o) && {
                &&& o.proposal.approvals@ == approvals
                &&& o.proposal.executed == met
                &&& o.proposal.proposal_id == p.proposal_id && o.proposal.pool_id == p.pool_id
                &&& o.proposal.loan_id == p.loan_id && o.proposal.new_priority == p.new_priority
                &&& o.proposal.proposer == p.proposer && o.proposal.created_at == p.created_at
                &&& (met ==> (o.queue matches Some(q) && q.entries@ == sorted_by_priority(
                    retagged(stored_queue->0.entries@, p.loan_id, p.new_priority),
                ) && q.updated_at == now && q.pool_id == stored_queue->0.pool_id
                    && q.created_at == stored_queue->0.created_at))
                &&& (!met ==> o.queue is None)
            })
        },
{
    if !approver_is_admin {
        return Err(ContractError::UnauthorizedCaller);
    }
    let mut proposal = match stored {
        Some(p) => p,
        None => {
            return Err(ContractError::InvalidAmount);
        },
    };
    if proposal.executed {
        return Err(ContractError::InvalidAmount);
    }
    if !contains_address(&proposal.approvals, approver) {
        proposal.approvals.push(approver);
    }
    let threshold_met = proposal.approvals.len() >= admin_threshold as usize;
    if threshold_met {
        let mut queue = match stored_queue {
            Some(q) => q,
            None => {
                return Err(ContractError::InvalidAmount);
            },
        };
        let mut updated: Vec<PriorityLoanEntry> = Vec::new();
        let n = queue.entries.len();
        let mut i: usize = 0;
        while i < n
            invariant
                n == queue.entries@.len(),
                i <= n,
                updated@ == retagged(queue.entries@, proposal.loan_id, proposal.new_priority).subrange(0, i as int),
            decreases n - i,
        {
            let e = queue.entries[i];
            if e.loan_id == proposal.loan_id {
                updated.push(PriorityLoanEntry { priority: proposal.new_priority, ..e });
            } else {
                updated.push(e);
            }
            assert(updated@ == retagged(queue.entries@, proposal.loan_id, proposal.new_priority).subrange(0, i + 1));
            i = i + 1;
        }
        assert(updated@ == retagged(queue.entries@, proposal.loan_id, proposal.new_priority));
        queue.entries = sort_by_priority(&updated);
        queue.updated_at = now;
        proposal.executed = true;
        return Ok(ApprovalOutcome { proposal, queue: Some(queue) });
    }
    Ok(ApprovalOutcome { proposal, queue: None })
}

/// Seniority of the waterfall: when a loan with a non-negative claim
/// receives anything, every earlier loan with a non-negative claim was
/// paid in full.
pub proof fn lemma_waterfall_seniority(entries: Seq<PriorityLoanEntry>, total: int, i: int, j: int)
    requires
        total >= 0,
        0 <= i < j < entries.len(),
        forall|k: int| 0 <= k < entries.len() ==> #[trigger] entries[k].amount >= 0,
        waterfall_paid(waterfall_remaining(entries, total, j), entries[j].amount as int) > 0,
    ensures
        waterfall_paid(waterfall_remaining(entries, total, i), entries[i].amount as int) == entries[i].amount,
{
    lemma_waterfall_remaining_nonneg_decreasing(entries, total, i + 1, j);
    if waterfall_paid(waterfall_remaining(entries, total, i), entries[i].amount as int) != entries[i].amount {
        // entry i was paid only what was left, so nothing remains after it
        assert(waterfall_remaining(entries, total, i + 1) == 0);
    }
}

/// With non-negative claims the proceeds left never grow and stay non-negative.
pub proof fn lemma_waterfall_remaining_nonneg_decreasing(entries: Seq<PriorityLoanEntry>, total: int, a: int, b: int)
    requires
        total >= 0,
        0 <= a <= b <= entries.len(),
        forall|k: int| 0 <= k < entries.len() ==> #[trigger] entries[k].amount >= 0,
    ensures
        0 <= waterfall_remaining(entries, total, b) <= waterfall_remaining(entries, total, a),
    decreases b,
{
    if b > 0 {
        if a < b {
            lemma_waterfall_remaining_nonneg_decreasing(entries, total, a, b - 1);
            assert(entries[b - 1].amount >= 0);
        } else {
            lemma_waterfall_remaining_nonneg_decreasing(entries, total, 0, b - 1);
            assert(entries[b - 1].amount >= 0);
        }
    }
}

/// With non-negative claims and proceeds, nothing more than the proceeds is
/// distributed and the distributed amount is the total of the paid lines.
pub proof fn lemma_waterfall_conserves(entries: Seq<PriorityLoanEntry>, total: int)
    requires
        total >= 0,
        forall|k: int| 0 <= k < entries.len() ==> #[trigger] entries[k].amount >= 0,
    ensures
        0 <= waterfall_remaining(entries, total, entries.len() as int) <= total,
{
    lemma_waterfall_remaining_nonneg_decreasing(entries, total, 0, entries.len() as int);
}

/// The sorted queue holds exactly as many entries as it was built from.
pub proof fn lemma_sorted_same_length(s: Seq<PriorityLoanEntry>)
    ensures
        sorted_by_priority(s).len() == s.len(),
{
    lemma_tranche_lengths(s);
}

/// The sorted queue is ordered by rank: Senior before Mezzanine before Junior.
pub proof fn lemma_sorted_is_ordered(s: Seq<PriorityLoanEntry>, i: int, j: int)
    requires
        0 <= i <= j < sorted_by_priority(s).len(),
    ensures
        spec_rank(sorted_by_priority(s)[i].priority) <= spec_rank(sorted_by_priority(s)[j].priority),
{
    lemma_tranche_ranks(s, 0);
    lemma_tranche_ranks(s, 1);
    lemma_tranche_ranks(s, 2);
    let t0 = tranche(s, 0);
    let t1 = tranche(s, 1);
    let t2 = tranche(s, 2);
    let all = sorted_by_priority(s);
    assert(all == t0 + t1 + t2);
    if i < t0.len() {
        assert(all[i] == t0[i]);
    } else if i < t0.len() + t1.len() {
        assert(all[i] == t1[i - t0.len()]);
    } else {
        assert(all[i] == t2[i - t0.len() - t1.len()]);
    }
    if j < t0.len() {
        assert(all[j] == t0[j]);
    } else if j < t0.len() + t1.len() {
        assert(all[j] == t1[j - t0.len()]);
    } else {
        assert(all[j] == t2[j - t0.len() - t1.len()]);
    }
}

} // verus!
