//! Batch loan request "cart".
//!
//! A borrower stages several prospective loan requests and submits them
//! together; carts of 3 or more items get a 1% volume discount on each item.
//! Under the single-active-loan rule at most one item of a submission can
//! disburse. Cart funnel statistics measure abandonment.
//!
//! Each operation takes the stored cart and statistics and returns what to
//! store; a batch submission decides the loan request of each item itself.
use vstd::prelude::*;
use crate::arith::bps_of;
use crate::errors::ContractError;
use crate::lending::{LendingConfig, Transfer, VouchRecord};
use crate::loans::{granted_loan, request_aborts, request_error, request_loan, LoanContext, LoanGrant, LoanRequest};
use crate::types::Address;

verus! {

/// Carts of at least this many items get the volume discount.
pub const VOLUME_DISCOUNT_THRESHOLD: u32 = 3;
/// The volume discount, in basis points.
pub const VOLUME_DISCOUNT_BPS: i128 = 100;

/// A single staged loan request within a borrower's cart.
#[derive(Clone, Copy, Debug, PartialEq, Eq, Structural)]
pub struct CartItem {
    pub amount: i128,
    /// Requested loan tenure, in seconds.
    pub tenure_secs: u64,
    pub added_at: u64,
}

/// A borrower's in-progress batch of staged loan requests.
pub struct LoanCart {
    pub borrower: Address,
    pub items: Vec<CartItem>,
    pub created_at: u64,
    pub last_updated: u64,
    pub submitted: bool,
}

/// Outcome of submitting a single cart item as part of a batch request.
#[derive(Clone, Copy, Debug, PartialEq, Eq, Structural)]
pub struct BatchLoanRequestResult {
    pub item_index: u32,
    pub requested_amount: i128,
    /// The discounted amount when the request succeeded, else the requested amount.
    pub discounted_amount: i128,
    pub discount_applied: bool,
    pub tenure_secs: u64,
    pub success: bool,
    /// Code of the error when the request failed.
    pub error_code: Option<u32>,
}

/// Protocol-wide cart funnel statistics.
#[derive(Clone, Copy, Debug, PartialEq, Eq, Structural)]
pub struct CartAbandonmentStats {
    pub carts_created: u32,
    pub carts_submitted: u32,
    pub items_added: u32,
    pub items_submitted: u32,
    pub items_removed: u32,
    pub items_edited: u32,
}

/// Statistics before any cart activity.
pub fn empty_stats() -> (s: CartAbandonmentStats)
    ensures
        s == (CartAbandonmentStats {
            carts_created: 0, carts_submitted: 0, items_added: 0, items_submitted: 0, items_removed: 0, items_edited: 0,
        }),
{
    CartAbandonmentStats {
        carts_created: 0, carts_submitted: 0, items_added: 0, items_submitted: 0, items_removed: 0, items_edited: 0,
    }
}

/// The stored statistics, or zeroes when none are stored.
pub fn load_stats(stored: Option<CartAbandonmentStats>) -> (s: CartAbandonmentStats)
    ensures
        s == match stored {
            Some(st) => st,
            None => CartAbandonmentStats {
                carts_created: 0, carts_submitted: 0, items_added: 0, items_submitted: 0, items_removed: 0, items_edited: 0,
            },
        },
{
    match stored {
        Some(st) => st,
        None => empty_stats(),
    }
}

pub open spec fn spec_apply_volume_discount(amount: i128, cart_size: u32) -> int {
    if cart_size >= VOLUME_DISCOUNT_THRESHOLD {
        amount - bps_of(amount as int, VOLUME_DISCOUNT_BPS as int)
    } else {
        amount as int
    }
}

/// The discounted amount of one item given the cart's size: 1% off each item
/// of a cart of 3 or more.
pub fn apply_volume_discount(amount: i128, cart_size: u32) -> (r: i128)
    requires
        amount * 100 <= i128::MAX,
        amount * 100 >= i128::MIN,
    ensures
        r == spec_apply_volume_discount(amount, cart_size),
{
    if cart_size >= VOLUME_DISCOUNT_THRESHOLD {
        amount - (amount * VOLUME_DISCOUNT_BPS / 10_000)
    } else {
        amount
    }
}

/// Result of changing a cart: the cart and statistics to store.
pub struct CartUpdate {
    pub cart: LoanCart,
    pub stats: CartAbandonmentStats,
}

/// Stage a new loan request; creates the cart (counting it) when the
/// borrower has none.
pub fn add_to_loan_cart(
    stored: Option<LoanCart>,
    stats: CartAbandonmentStats,
    borrower: Address,
    amount: i128,
    tenure_secs: u64,
    now: u64,
) -> (u: CartUpdate)
    requires
        amount > 0,
        tenure_secs > 0,
        stats.carts_created < u32::MAX,
        stats.items_added < u32::MAX,
    ensures
        u.cart.items@ == (match stored {
            Some(c) => c.items@,
            None => Seq::empty(),
        }).push(CartItem { amount, tenure_secs, added_at: now }),
        u.cart.borrower == (match stored { Some(c) => c.borrower, None => borrower }),
        u.cart.created_at == (match stored { Some(c) => c.created_at, None => now }),
        u.cart.last_updated == now,
        !u.cart.submitted,
        u.stats == (CartAbandonmentStats {
            carts_created: if stored is None { (stats.carts_created + 1) as u32 } else { stats.carts_created },
            items_added: (stats.items_added + 1) as u32,
            ..stats
        }),
{
    let mut st = stats;
    let mut cart = match stored {
        Some(c) => c,
        None => {
            st.carts_created = st.carts_created + 1;
            LoanCart { borrower, items: Vec::new(), created_at: now, last_updated: now, submitted: false }
        },
    };
    cart.items.push(CartItem { amount, tenure_secs, added_at: now });
    cart.last_updated = now;
    cart.submitted = false;
    st.items_added = st.items_added + 1;
    CartUpdate { cart, stats: st }
}

/// Whether the stored cart has an item at `item_index`.
pub open spec fn has_item(stored: Option<LoanCart>, item_index: u32) -> bool {
    stored matches Some(c) && item_index < c.items@.len()
}

/// Remove a single staged item by index, keeping the rest in order;
/// refused with `NotFound` without a cart or such an item.
pub fn remove_cart_item(stored: Option<LoanCart>, stats: CartAbandonmentStats, item_index: u32, now: u64) -> (r:
    Result<CartUpdate, ContractError>)
    requires
        has_item(stored, item_index) ==> stats.items_removed < u32::MAX,
    ensures
        !has_item(stored, item_index) ==> r matches Err(ContractError::NotFound),
        has_item(stored, item_index) ==> (r matches Ok(u) && {
            let cart = stored->0;
            &&& u.cart.items@ == cart.items@.remove(item_index as int)
            &&& u.cart.borrower == cart.borrower
            &&& u.cart.created_at == cart.created_at
            &&& u.cart.submitted == cart.submitted
            &&& u.cart.last_updated == now
            &&& u.stats == (CartAbandonmentStats { items_removed: (stats.items_removed + 1) as u32, ..stats })
        }),
{
    let mut c = match stored {
        Some(c) => c,
        None => {
            return Err(ContractError::NotFound);
        },
    };
    if item_index as usize >= c.items.len() {
        return Err(ContractError::NotFound);
    }
    c.items.remove(item_index as usize);
    c.last_updated = now;
    let mut st = stats;
    st.items_removed = st.items_removed + 1;
    Ok(CartUpdate { cart: c, stats: st })
}

/// Replace the amount and tenure of one staged item in place, keeping its
/// staging time; refused with `NotFound` without a cart or such an item.
pub fn update_cart_item(
    stored: Option<LoanCart>,
    stats: CartAbandonmentStats,
    item_index: u32,
    amount: i128,
    tenure_secs: u64,
    now: u64,
) -> (r: Result<CartUpdate, ContractError>)
    requires
        amount > 0,
        tenure_secs > 0,
        has_item(stored, item_index) ==> stats.items_edited < u32::MAX,
    ensures
        !has_item(stored, item_index) ==> r matches Err(ContractError::NotFound),
        has_item(stored, item_index) ==> (r matches Ok(u) && {
            let cart = stored->0;
            &&& u.cart.items@ == cart.items@.update(
                item_index as int,
                CartItem { amount, tenure_secs, added_at: cart.items@[item_index as int].added_at },
            )
            &&& u.cart.borrower == cart.borrower
            &&& u.cart.created_at == cart.created_at
            &&& u.cart.submitted == cart.submitted
            &&& u.cart.last_updated == now
            &&& u.stats == (CartAbandonmentStats { items_edited: (stats.items_edited + 1) as u32, ..stats })
        }),
{
    let mut c = match stored {
        Some(c) => c,
        None => {
            return Err(ContractError::NotFound);
        },
    };
    if item_index as usize >= c.items.len() {
        return Err(ContractError::NotFound);
    }
    let added_at = c.items[item_index as usize].added_at;
    c.items.set(item_index as usize, CartItem { amount, tenure_secs, added_at });
    c.last_updated = now;
    let mut st = stats;
    st.items_edited = st.items_edited + 1;
    Ok(CartUpdate { cart: c, stats: st })
}

/// The borrower's cart, or an empty one when none is stored.
pub fn get_loan_cart(stored: Option<LoanCart>, borrower: Address) -> (c: LoanCart)
    ensures
        stored is Some ==> c == stored->0,
        stored is None ==> c.borrower == borrower && c.items@.len() == 0 && c.created_at == 0
            && c.last_updated == 0 && !c.submitted,
{
    match stored {
        Some(c) => c,
        None => LoanCart { borrower, items: Vec::new(), created_at: 0, last_updated: 0, submitted: false },
    }
}

/// Whether discarding the stored cart counts as an abandonment (the cart
/// had staged items and was not submitted); returns the number of items
/// abandoned in that case. The cart is then removed by the caller.
pub fn abandon_loan_cart(stored: &Option<LoanCart>) -> (r: Option<u32>)
    requires
        stored matches Some(c) ==> c.items@.len() <= u32::MAX,
    ensures
        r == (match stored {
            Some(c) => if !c.submitted && c.items@.len() > 0 { Some(c.items@.len() as u32) } else { None },
            None => None,
        }),
{
    match stored {
        Some(c) => {
            if !c.submitted && c.items.len() > 0 {
                Some(c.items.len() as u32)
            } else {
                None
            }
        },
        None => None,
    }
}

/// Whether every staged amount can be discounted without overflow.
pub open spec fn amounts_in_range(items: Seq<CartItem>) -> bool {
    forall|i: int| 0 <= i < items.len() ==> #[trigger] items[i].amount * 100 <= i128::MAX
        && items[i].amount * 100 >= i128::MIN
}

/// The reported result of item `i` given the outcome of its request.
pub open spec fn spec_item_result(i: int, item: CartItem, cart_size: u32, outcome: Result<(), ContractError>) -> BatchLoanRequestResult {
    let discounted = spec_apply_volume_discount(item.amount, cart_size) as i128;
    let success = outcome is Ok;
    let shown = if success { discounted } else { item.amount };
    BatchLoanRequestResult {
        item_index: i as u32,
        requested_amount: item.amount,
        discounted_amount: shown,
        discount_applied: success && shown < item.amount,
        tenure_secs: item.tenure_secs,
        success,
        error_code: match outcome {
            Ok(_) => None,
            Err(e) => Some(e.spec_code()),
        },
    }
}

/// What a batch submission produced: per-item results, the statistics and
/// the emptied, submitted cart to store, how many items succeeded, and the
/// loan granted (at most one).
pub struct BatchSubmission {
    pub results: Vec<BatchLoanRequestResult>,
    pub stats: CartAbandonmentStats,
    pub cart: LoanCart,
    pub success_count: u32,
    pub grant: Option<LoanGrant>,
}

/// The loan request made for item `i`: its discounted amount.
pub open spec fn item_request(items: Seq<CartItem>, i: int, borrower: Address, threshold: i128, token: Address) -> LoanRequest {
    LoanRequest {
        borrower,
        amount: spec_apply_volume_discount(items[i].amount, items.len() as u32) as i128,
        threshold,
        token,
    }
}

/// Whether the borrower has an active loan once the first `k` items were
/// requested: they had one before, or one of those requests was granted.
pub open spec fn active_after(
    items: Seq<CartItem>,
    borrower: Address,
    threshold: i128,
    token: Address,
    cfg: LendingConfig,
    ctx: LoanContext,
    vs: Seq<VouchRecord>,
    k: int,
) -> bool
    decreases k, 0int,
{
    if k <= 0 {
        ctx.has_active_loan
    } else {
        active_after(items, borrower, threshold, token, cfg, ctx, vs, k - 1) || item_outcome(
            items,
            borrower,
            threshold,
            token,
            cfg,
            ctx,
            vs,
            k - 1,
        ) is Ok
    }
}

/// The context the request of item `k` is decided in.
pub open spec fn item_context(
    items: Seq<CartItem>,
    borrower: Address,
    threshold: i128,
    token: Address,
    cfg: LendingConfig,
    ctx: LoanContext,
    vs: Seq<VouchRecord>,
    k: int,
) -> LoanContext {
    LoanContext { has_active_loan: active_after(items, borrower, threshold, token, cfg, ctx, vs, k), ..ctx }
}

/// What the request of item `k` returns.
pub open spec fn item_outcome(
    items: Seq<CartItem>,
    borrower: Address,
    threshold: i128,
    token: Address,
    cfg: LendingConfig,
    ctx: LoanContext,
    vs: Seq<VouchRecord>,
    k: int,
) -> Result<(), ContractError>
    decreases k, 1int,
{
    if k < 0 {
        Ok(())
    } else {
        match request_error(
            item_request(items, k, borrower, threshold, token),
            cfg,
            LoanContext { has_active_loan: active_after(items, borrower, threshold, token, cfg, ctx, vs, k), ..ctx },
            vs,
        ) {
            Some(e) => Err(e),
            None => Ok(()),
        }
    }
}

/// Whether every request of the batch runs without aborting, whether the
/// borrower already has an active loan when it is made or not.
pub open spec fn batch_fits(
    items: Seq<CartItem>,
    borrower: Address,
    threshold: i128,
    token: Address,
    cfg: LendingConfig,
    ctx: LoanContext,
    vs: Seq<VouchRecord>,
) -> bool {
    forall|i: int|
        0 <= i < items.len() ==> {
            &&& !request_aborts(#[trigger] item_request(items, i, borrower, threshold, token), cfg, ctx, vs)
            &&& !request_aborts(
                item_request(items, i, borrower, threshold, token),
                cfg,
                LoanContext { has_active_loan: true, ..ctx },
                vs,
            )
        }
}

/// Whether `grant` is the loan granted for item `i`, with the stated purpose.
pub open spec fn granted(
    grant: Option<LoanGrant>,
    items: Seq<CartItem>,
    i: int,
    borrower: Address,
    threshold: i128,
    token: Address,
    cfg: LendingConfig,
    ctx: LoanContext,
    purpose: Seq<char>,
) -> bool {
    let req = item_request(items, i, borrower, threshold, token);
    &&& grant is Some
    &&& grant->0.loan == granted_loan(req, cfg, ctx)
    &&& grant->0.loan_count == ctx.loan_count + 1
    &&& grant->0.disbursement == (Transfer { token, to: borrower, amount: req.amount })
    &&& grant->0.loan_purpose@ == purpose
}

/// A request made while the borrower has an active loan is refused.
proof fn lemma_active_refused(req: LoanRequest, cfg: LendingConfig, ctx: LoanContext, vs: Seq<VouchRecord>)
    requires
        ctx.has_active_loan,
    ensures
        request_error(req, cfg, ctx, vs) is Some,
{
}

/// Submit every staged item: the loan request of each item, for its
/// discounted amount, is decided in turn by `request_loan`, the borrower's
/// active loan carried from one request to the next (so at most one item
/// is granted). The cart is emptied and marked submitted at `ctx.now`; the
/// submission and the successful items are counted.
pub fn submit_batch_loan_request(
    cart: LoanCart,
    loan_purpose: &String,
    threshold: i128,
    token: Address,
    cfg: &LendingConfig,
    ctx: LoanContext,
    vouches: &Vec<VouchRecord>,
    stats: CartAbandonmentStats,
) -> (s: BatchSubmission)
    requires
        cart.items@.len() <= u32::MAX,
        vouches@.len() <= u32::MAX,
        amounts_in_range(cart.items@),
        batch_fits(cart.items@, cart.borrower, threshold, token, *cfg, ctx, vouches@),
        stats.carts_submitted < u32::MAX,
        stats.items_submitted < u32::MAX,
    ensures
        ({
            let items = cart.items@;
            let out = |i: int| item_outcome(items, cart.borrower, threshold, token, *cfg, ctx, vouches@, i);
            &&& s.results@.len() == items.len()
            &&& forall|i: int| 0 <= i < items.len() ==> #[trigger] s.results@[i] == spec_item_result(
                i,
                items[i],
                items.len() as u32,
                out(i),
            )
            &&& s.success_count <= 1
            &&& s.success_count == 1 <==> exists|i: int| 0 <= i < items.len() && (#[trigger] s.results@[i]).success
            &&& forall|i: int| 0 <= i < items.len() && (#[trigger] s.results@[i]).success ==> granted(
                s.grant,
                items,
                i,
                cart.borrower,
                threshold,
                token,
                *cfg,
                ctx,
                loan_purpose@,
            )
            &&& s.success_count == 0 ==> s.grant is None
        }),
        s.stats == (CartAbandonmentStats {
            carts_submitted: (stats.carts_submitted + 1) as u32,
            items_submitted: (stats.items_submitted + s.success_count) as u32,
            ..stats
        }),
        s.cart.borrower == cart.borrower,
        s.cart.items@.len() == 0,
        s.cart.created_at == cart.created_at,
        s.cart.last_updated == ctx.now,
        s.cart.submitted,
{
    let n = cart.items.len();
    let size = n as u32;
    let ghost items = cart.items@;
    let ghost borrower = cart.borrower;
    let mut results: Vec<BatchLoanRequestResult> = Vec::new();
    let mut success_count: u32 = 0;
    let mut grant: Option<LoanGrant> = None;
    let mut active = ctx.has_active_loan;
    let mut i: usize = 0;
    while i < n
        invariant
            n == items.len(),
            items == cart.items@,
            borrower == cart.borrower,
            size == n as u32,
            n <= u32::MAX,
            vouches@.len() <= u32::MAX,
            amounts_in_range(items),
            batch_fits(items, borrower, threshold, token, *cfg, ctx, vouches@),
            i <= n,
            results@.len() == i,
            active == active_after(items, borrower, threshold, token, *cfg, ctx, vouches@, i as int),
            success_count <= 1,
            success_count == 1 ==> active,
            success_count == 0 ==> active == ctx.has_active_loan && grant is None,
            success_count == 1 <==> exists|j: int| 0 <= j < i && (#[trigger] results@[j]).success,
            forall|j: int| 0 <= j < i ==> #[trigger] results@[j] == spec_item_result(
                j,
                items[j],
                size,
                item_outcome(items, borrower, threshold, token, *cfg, ctx, vouches@, j),
            ),
            forall|j: int| 0 <= j < i && (#[trigger] results@[j]).success ==> granted(
                grant,
                items,
                j,
                borrower,
                threshold,
                token,
                *cfg,
                ctx,
                loan_purpose@,
            ),
        decreases n - i,
    {
        let item = cart.items[i];
        let discounted = apply_volume_discount(item.amount, size);
        let req = LoanRequest { borrower: cart.borrower, amount: discounted, threshold, token };
        let c = LoanContext { has_active_loan: active, ..ctx };
        assert(req == item_request(items, i as int, borrower, threshold, token));
        assert(!request_aborts(req, *cfg, ctx, vouches@) && !request_aborts(
            req,
            *cfg,
            LoanContext { has_active_loan: true, ..ctx },
            vouches@,
        ));
        assert(c == ctx || c == LoanContext { has_active_loan: true, ..ctx });
        let outcome = request_loan(req, loan_purpose, cfg, c, vouches);
        let ghost expected = item_outcome(items, borrower, threshold, token, *cfg, ctx, vouches@, i as int);
        let (success, error_code) = match outcome {
            Ok(g) => {
                proof {
                    if active {
                        lemma_active_refused(req, *cfg, c, vouches@);
                    }
                }
                assert(expected is Ok);
                grant = Some(g);
                active = true;
                success_count = success_count + 1;
                (true, None)
            },
            Err(e) => {
                assert(expected == Err::<(), ContractError>(e));
                (false, Some(e.code()))
            },
        };
        let shown = if success { discounted } else { item.amount };
        let ghost prev = results@;
        results.push(BatchLoanRequestResult {
            item_index: i as u32,
            requested_amount: item.amount,
            discounted_amount: shown,
            discount_applied: success && shown < item.amount,
            tenure_secs: item.tenure_secs,
            success,
            error_code,
        });
        proof {
            assert(forall|j: int| 0 <= j < i ==> results@[j] == prev[j]);
            assert(results@[i as int].success == success);
            if success {
                assert(results@[i as int].success);
            } else {
                assert forall|j: int| 0 <= j < i + 1 && (#[trigger] results@[j]).success implies 0 <= j < i
                    && prev[j].success by {
                }
            }
        }
        i = i + 1;
    }
    let mut st = stats;
    st.carts_submitted = st.carts_submitted + 1;
    st.items_submitted = st.items_submitted + success_count;
    let new_cart = LoanCart {
        borrower: cart.borrower,
        items: Vec::new(),
        created_at: cart.created_at,
        last_updated: ctx.now,
        submitted: true,
    };
    BatchSubmission { results, stats: st, cart: new_cart, success_count, grant }
}

/// Whether a submission was only partly honored (fewer successes than
/// staged items), which is announced separately.
pub fn is_partial_submission(success_count: u32, cart_size: u32) -> (b: bool)
    ensures
        b == (success_count < cart_size),
{
    success_count < cart_size
}

/// An item's reported discount is realized only when its request succeeded.
pub proof fn lemma_discount_only_on_success(i: int, item: CartItem, cart_size: u32, outcome: Result<(), ContractError>)
    requires
        item.amount > 0,
        item.amount * 100 <= i128::MAX,
    ensures
        spec_item_result(i, item, cart_size, outcome).discount_applied ==> outcome is Ok,
        outcome is Err ==> spec_item_result(i, item, cart_size, outcome).discounted_amount == item.amount,
{
}

} // verus!
