//! Loan tokenization: tokens that carry the rights to a loan's interest
//! stream, their holders and interest distributions, their price history,
//! and a secondary market whose book is kept in price-time priority.
//!
//! The book orders sell orders by ascending price, then by creation time,
//! then by order id, so that a later order is never filled ahead of an
//! earlier one at the same or a better price.
use vstd::prelude::*;
use crate::errors::ContractError;
use crate::types::Address;

verus! {

/// A token backed by a loan's interest stream.
#[derive(Clone, Copy, Debug, PartialEq, Eq, Structural)]
pub struct LoanToken {
    pub token_id: u64,
    pub loan_id: u64,
    pub borrower: Address,
    pub total_supply: i128,
    pub token_contract: Address,
    pub created_at: u64,
    pub interest_distributed: i128,
}

/// A price observation of a token.
#[derive(Clone, Copy, Debug, PartialEq, Eq, Structural)]
pub struct TokenPriceRecord {
    pub token_id: u64,
    pub price: i128,
    pub volume: i128,
    pub timestamp: u64,
}

/// An interest distribution to a token's holders.
#[derive(Clone, Copy, Debug, PartialEq, Eq, Structural)]
pub struct InterestDistribution {
    pub token_id: u64,
    pub interest_amount: i128,
    pub token_holders: u32,
    pub interest_per_token: i128,
    pub timestamp: u64,
}

/// A sell order on the secondary market.
#[derive(Clone, Copy, Debug, PartialEq, Eq, Structural)]
pub struct MarketOrder {
    pub order_id: u64,
    pub token_id: u64,
    pub seller: Address,
    pub price_per_token: i128,
    pub amount: i128,
    pub total_value: i128,
    pub is_active: bool,
    pub created_at: u64,
}

/// Issue a token of `initial_supply` (positive) for the interest of loan
/// `loan_id`, with the next token id (1 when none was issued) at `now`.
/// Returns the token, the token list with it appended, and the next id.
pub fn tokenize_loan_interest(
    loan_id: u64,
    borrower: Address,
    initial_supply: i128,
    token_contract: Address,
    now: u64,
    next_id: Option<u64>,
    tokens: &Vec<LoanToken>,
) -> (r: Result<(LoanToken, Vec<LoanToken>, u64), ContractError>)
    requires
        initial_supply > 0 ==> next_id.unwrap_or(1) < u64::MAX,
    ensures
        initial_supply <= 0 ==> r is Err && r->Err_0 == ContractError::InvalidAmount,
        initial_supply > 0 ==> r is Ok && {
            let (t, all, next) = r->Ok_0;
            &&& t == (LoanToken {
                token_id: next_id.unwrap_or(1),
                loan_id,
                borrower,
                total_supply: initial_supply,
                token_contract,
                created_at: now,
                interest_distributed: 0,
            })
            &&& all@ == tokens@.push(t)
            &&& next == next_id.unwrap_or(1) + 1
        },
{
    if initial_supply <= 0 {
        return Err(ContractError::InvalidAmount);
    }
    let id = match next_id {
        Some(i) => i,
        None => 1,
    };
    let t = LoanToken {
        token_id: id,
        loan_id,
        borrower,
        total_supply: initial_supply,
        token_contract,
        created_at: now,
        interest_distributed: 0,
    };
    let mut all = tokens.clone();
    assert(all@ =~= tokens@);
    all.push(t);
    Ok((t, all, id + 1))
}

/// The first token with id `token_id`, if any.
pub open spec fn find_token(tokens: Seq<LoanToken>, token_id: u64) -> Option<LoanToken>
    decreases tokens.len(),
{
    if tokens.len() == 0 {
        None
    } else if tokens[0].token_id == token_id {
        Some(tokens[0])
    } else {
        find_token(tokens.drop_first(), token_id)
    }
}

/// Looks up the token with id `token_id`.
pub fn get_loan_token(tokens: &Vec<LoanToken>, token_id: u64) -> (r: Result<LoanToken, ContractError>)
    ensures
        r == (match find_token(tokens@, token_id) {
            Some(t) => Ok::<LoanToken, ContractError>(t),
            None => Err(ContractError::NotFound),
        }),
{
    let mut i: usize = 0;
    assert(tokens@.subrange(0, tokens@.len() as int) == tokens@);
    while i < tokens.len()
        invariant
            i <= tokens@.len(),
            find_token(tokens@, token_id) == find_token(tokens@.subrange(i as int, tokens@.len() as int), token_id),
        decreases tokens@.len() - i,
    {
        let ghost rest = tokens@.subrange(i as int, tokens@.len() as int);
        assert(rest.drop_first() == tokens@.subrange(i + 1, tokens@.len() as int));
        if tokens[i].token_id == token_id {
            return Ok(tokens[i]);
        }
        i = i + 1;
    }
    Err(ContractError::NotFound)
}

/// Distribute `interest_amount` (positive) among the `holder_count` holders
/// of token `token_id`, which must exist: each token's share is the amount
/// divided by the number of holders.
pub fn distribute_interest_to_holders(
    token_id: u64,
    interest_amount: i128,
    holder_count: u32,
    tokens: &Vec<LoanToken>,
    now: u64,
) -> (r: Result<InterestDistribution, ContractError>)
    ensures
        interest_amount <= 0 || holder_count == 0 ==> r is Err && r->Err_0 == ContractError::InvalidAmount,
        interest_amount > 0 && holder_count > 0 && find_token(tokens@, token_id) is None ==> r is Err && r->Err_0
            == ContractError::NotFound,
        interest_amount > 0 && holder_count > 0 && find_token(tokens@, token_id) is Some ==> r == Ok::<
            InterestDistribution,
            ContractError,
        >(
            InterestDistribution {
                token_id,
                interest_amount,
                token_holders: holder_count,
                interest_per_token: ((interest_amount as int) / (holder_count as int)) as i128,
                timestamp: now,
            },
        ),
{
    if interest_amount <= 0 {
        return Err(ContractError::InvalidAmount);
    }
    if holder_count == 0 {
        return Err(ContractError::InvalidAmount);
    }
    let per_token = interest_amount / (holder_count as i128);
    match get_loan_token(tokens, token_id) {
        Ok(_) => Ok(
            InterestDistribution {
                token_id,
                interest_amount,
                token_holders: holder_count,
                interest_per_token: per_token,
                timestamp: now,
            },
        ),
        Err(e) => Err(e),
    }
}

/// Record a price observation (neither price nor volume negative).
pub fn record_token_price(token_id: u64, price: i128, volume: i128, now: u64) -> (r: Result<TokenPriceRecord, ContractError>)
    ensures
        price < 0 || volume < 0 ==> r is Err && r->Err_0 == ContractError::InvalidAmount,
        price >= 0 && volume >= 0 ==> r == Ok::<TokenPriceRecord, ContractError>(
            TokenPriceRecord { token_id, price, volume, timestamp: now },
        ),
{
    if price < 0 || volume < 0 {
        return Err(ContractError::InvalidAmount);
    }
    Ok(TokenPriceRecord { token_id, price, volume, timestamp: now })
}

/// Add `holder` to a token's holders unless already there.
pub fn register_token_holder(holders: &Vec<Address>, holder: Address) -> (r: Vec<Address>)
    ensures
        holders@.contains(holder) ==> r@ == holders@,
        !holders@.contains(holder) ==> r@ == holders@.push(holder),
{
    let mut out = holders.clone();
    assert(out@ =~= holders@);
    let mut i: usize = 0;
    while i < holders.len()
        invariant
            i <= holders@.len(),
            out@ == holders@,
            forall|j: int| 0 <= j < i ==> holders@[j] != holder,
        decreases holders@.len() - i,
    {
        if holders[i] == holder {
            assert(holders@.contains(holder));
            return out;
        }
        i = i + 1;
    }
    out.push(holder);
    out
}

/// `a * b` clamped to the `i128` range.
pub open spec fn sat_mul(a: int, b: int) -> int {
    if a * b > i128::MAX { i128::MAX as int } else if a * b < i128::MIN { i128::MIN as int } else { a * b }
}

/// Place a sell order of `amount` tokens at `price_per_token` (both
/// positive) with the next order id (1 when none was placed) at `now`.
/// Its total value saturates at the largest `i128`. Returns the order and
/// the next order id.
pub fn create_market_order(
    seller: Address,
    token_id: u64,
    price_per_token: i128,
    amount: i128,
    now: u64,
    next_order_id: Option<u64>,
) -> (r: Result<(MarketOrder, u64), ContractError>)
    requires
        price_per_token > 0 && amount > 0 ==> next_order_id.unwrap_or(1) < u64::MAX,
    ensures
        price_per_token <= 0 || amount <= 0 ==> r is Err && r->Err_0 == ContractError::InvalidAmount,
        price_per_token > 0 && amount > 0 ==> r == Ok::<(MarketOrder, u64), ContractError>(
            (
                MarketOrder {
                    order_id: next_order_id.unwrap_or(1),
                    token_id,
                    seller,
                    price_per_token,
                    amount,
                    total_value: sat_mul(price_per_token as int, amount as int) as i128,
                    is_active: true,
                    created_at: now,
                },
                (next_order_id.unwrap_or(1) + 1) as u64,
            ),
        ),
{
    if price_per_token <= 0 || amount <= 0 {
        return Err(ContractError::InvalidAmount);
    }
    let id = match next_order_id {
        Some(i) => i,
        None => 1,
    };
    proof {
        assert(price_per_token * amount > 0) by (nonlinear_arith)
            requires price_per_token > 0, amount > 0;
    }
    let total_value = match price_per_token.checked_mul(amount) {
        Some(v) => v,
        None => i128::MAX,
    };
    Ok((
        MarketOrder {
            order_id: id,
            token_id,
            seller,
            price_per_token,
            amount,
            total_value,
            is_active: true,
            created_at: now,
        },
        id + 1,
    ))
}

/// The position of the first order with id `order_id`, if any.
pub open spec fn order_index(orders: Seq<MarketOrder>, order_id: u64) -> Option<int> {
    if exists|i: int| 0 <= i < orders.len() && #[trigger] orders[i].order_id == order_id {
        Some(
            choose|i: int|
                0 <= i < orders.len() && #[trigger] orders[i].order_id == order_id && forall|j: int|
                    0 <= j < i ==> orders[j].order_id != order_id,
        )
    } else {
        None
    }
}

/// Cancel order `order_id`, which only its seller may do: the first order
/// with that id is marked inactive. Returns the updated orders.
pub fn cancel_market_order(caller: Address, order_id: u64, orders: &Vec<MarketOrder>) -> (r: Result<
    Vec<MarketOrder>,
    ContractError,
>)
    ensures
        order_index(orders@, order_id) is None ==> r is Err && r->Err_0 == ContractError::NotFound,
        ({
            let idx = order_index(orders@, order_id);
            &&& idx is Some && orders@[idx->0].seller != caller ==> r is Err && r->Err_0 == ContractError::UnauthorizedCaller
            &&& idx is Some && orders@[idx->0].seller == caller ==> (r matches Ok(v) && v@ == orders@.update(
                idx->0,
                MarketOrder { is_active: false, ..orders@[idx->0] },
            ))
        }),
{
    let mut i: usize = 0;
    while i < orders.len()
        invariant
            i <= orders@.len(),
            forall|j: int| 0 <= j < i ==> #[trigger] orders@[j].order_id != order_id,
        decreases orders@.len() - i,
    {
        if orders[i].order_id == order_id {
            assert(order_index(orders@, order_id) == Some(i as int)) by {
                assert(orders@[i as int].order_id == order_id);
                let k = choose|k: int|
                    0 <= k < orders@.len() && #[trigger] orders@[k].order_id == order_id && forall|j: int|
                        0 <= j < k ==> orders@[j].order_id != order_id;
                if k < i {
                } else if k > i {
                    assert(orders@[i as int].order_id == order_id);
                }
            }
            if orders[i].seller != caller {
                return Err(ContractError::UnauthorizedCaller);
            }
            let mut out = orders.clone();
            assert(out@ =~= orders@);
            let o = MarketOrder { is_active: false, ..orders[i] };
            out.set(i, o);
            return Ok(out);
        }
        i = i + 1;
    }
    Err(ContractError::NotFound)
}

/// Price-time priority: `a` comes no later than `b` when its price is
/// lower, or equal with an earlier creation time, or both equal with a
/// lower or equal order id.
pub open spec fn precedes(a: MarketOrder, b: MarketOrder) -> bool {
    a.price_per_token < b.price_per_token || (a.price_per_token == b.price_per_token && (a.created_at < b.created_at || (
    a.created_at == b.created_at && a.order_id <= b.order_id)))
}

fn precedes_exec(a: &MarketOrder, b: &MarketOrder) -> (r: bool)
    ensures
        r == precedes(*a, *b),
{
    a.price_per_token < b.price_per_token || (a.price_per_token == b.price_per_token && (a.created_at < b.created_at || (
    a.created_at == b.created_at && a.order_id <= b.order_id)))
}

/// The active orders for `token_id`, in their stored order.
pub open spec fn active_for(orders: Seq<MarketOrder>, token_id: u64) -> Seq<MarketOrder> {
    orders.filter(|o: MarketOrder| o.token_id == token_id && o.is_active)
}

/// The book for `token_id`: its active orders in price-time priority. The
/// result holds exactly those orders, each ahead of every order it
/// precedes.
pub fn get_active_market_orders(orders: &Vec<MarketOrder>, token_id: u64) -> (r: Vec<MarketOrder>)
    ensures
        r@.to_multiset() == active_for(orders@, token_id).to_multiset(),
        forall|i: int, j: int| 0 <= i < j < r@.len() ==> #[trigger] precedes(r@[i], r@[j]),
{
    let mut active: Vec<MarketOrder> = Vec::new();
    let mut k: usize = 0;
    while k < orders.len()
        invariant
            k <= orders@.len(),
            active@ == active_for(orders@.subrange(0, k as int), token_id),
        decreases orders@.len() - k,
    {
        let ghost prefix = orders@.subrange(0, k as int);
        assert(orders@.subrange(0, k + 1) == prefix.push(orders@[k as int]));
        reveal(Seq::filter);
        assert(orders@.subrange(0, k + 1).drop_last() == prefix);
        if orders[k].token_id == token_id && orders[k].is_active {
            active.push(orders[k]);
        }
        k = k + 1;
    }
    assert(orders@.subrange(0, orders@.len() as int) == orders@);
    price_time_sorted(&active)
}

/// Sorts orders into price-time priority (stable, by insertion).
pub fn price_time_sorted(orders: &Vec<MarketOrder>) -> (r: Vec<MarketOrder>)
    ensures
        r@.to_multiset() == orders@.to_multiset(),
        forall|i: int, j: int| 0 <= i < j < r@.len() ==> #[trigger] precedes(r@[i], r@[j]),
{
    let mut sorted: Vec<MarketOrder> = Vec::new();
    let n = orders.len();
    let mut k: usize = 0;
    assert(orders@.subrange(0, 0) =~= sorted@);
    while k < n
        invariant
            n == orders@.len(),
            k <= n,
            forall|i: int, j: int| 0 <= i < j < sorted@.len() ==> #[trigger] precedes(sorted@[i], sorted@[j]),
            sorted@.to_multiset() == orders@.subrange(0, k as int).to_multiset(),
        decreases n - k,
    {
        let x = orders[k];
        let mut pos: usize = 0;
        while pos < sorted.len() && precedes_exec(&sorted[pos], &x)
            invariant
                pos <= sorted@.len(),
                forall|j: int| 0 <= j < pos ==> precedes(#[trigger] sorted@[j], x),
            decreases sorted@.len() - pos,
        {
            pos = pos + 1;
        }
        let ghost before = sorted@;
        sorted.insert(pos, x);
        proof {
            assert(sorted@ == before.insert(pos as int, x));
            assert forall|i: int, j: int| 0 <= i < j < sorted@.len() implies #[trigger] precedes(sorted@[i], sorted@[j]) by {
                if j < pos {
                    assert(sorted@[i] == before[i] && sorted@[j] == before[j]);
                } else if j == pos {
                    assert(sorted@[i] == before[i]);
                } else if i == pos {
                    assert(sorted@[j] == before[j - 1]);
                    assert(!precedes(before[pos as int], x));
                    if j - 1 > pos {
                        assert(precedes(before[pos as int], before[j - 1]));
                    }
                } else if i < pos {
                    assert(sorted@[i] == before[i] && sorted@[j] == before[j - 1]);
                } else {
                    assert(sorted@[i] == before[i - 1] && sorted@[j] == before[j - 1]);
                }
            }
            assert(orders@.subrange(0, k + 1) == orders@.subrange(0, k as int).push(x));
            vstd::seq_lib::to_multiset_insert(before, pos as int, x);
            vstd::seq_lib::to_multiset_build(orders@.subrange(0, k as int), x);
        }
        k = k + 1;
    }
    assert(orders@.subrange(0, n as int) == orders@);
    sorted
}

/// The records of `token_id` among `hist`, in order.
pub open spec fn records_for(hist: Seq<TokenPriceRecord>, token_id: u64) -> Seq<TokenPriceRecord> {
    hist.filter(|r: TokenPriceRecord| r.token_id == token_id)
}

/// Where the last `limit` records start.
pub open spec fn window_start(len: int, limit: u32) -> int {
    if len > limit { len - limit } else { 0 }
}

/// The records of `token_id` among the last `limit` records of `history`.
pub fn get_token_price_history(history: &Vec<TokenPriceRecord>, token_id: u64, limit: u32) -> (r: Vec<TokenPriceRecord>)
    ensures
        r@ == records_for(
            history@.subrange(window_start(history@.len() as int, limit), history@.len() as int),
            token_id,
        ),
{
    let n = history.len();
    let start: usize = if n > limit as usize { n - limit as usize } else { 0 };
    let mut out: Vec<TokenPriceRecord> = Vec::new();
    let mut i: usize = start;
    while i < n
        invariant
            n == history@.len(),
            start <= i <= n,
            start == window_start(n as int, limit),
            out@ == records_for(history@.subrange(start as int, i as int), token_id),
        decreases n - i,
    {
        let ghost prefix = history@.subrange(start as int, i as int);
        assert(history@.subrange(start as int, i + 1) == prefix.push(history@[i as int]));
        reveal(Seq::filter);
        assert(history@.subrange(start as int, i + 1).drop_last() == prefix);
        if history[i].token_id == token_id {
            out.push(history[i]);
        }
        i = i + 1;
    }
    out
}

/// Saturating sum of the prices, in order.
pub open spec fn price_sum(rs: Seq<TokenPriceRecord>) -> int
    decreases rs.len(),
{
    if rs.len() == 0 {
        0
    } else {
        crate::arith::sat_add(price_sum(rs.drop_last()), rs.last().price as int)
    }
}

/// Average price of `token_id` over the last `periods` records: the
/// saturating sum of their prices divided by their number; refused when
/// there is none.
pub fn calculate_average_price(history: &Vec<TokenPriceRecord>, token_id: u64, periods: u32) -> (r: Result<
    i128,
    ContractError,
>)
    ensures
        ({
            let rs = records_for(
                history@.subrange(window_start(history@.len() as int, periods), history@.len() as int),
                token_id,
            );
            &&& rs.len() == 0 ==> r is Err && r->Err_0 == ContractError::NotFound
            &&& rs.len() > 0 ==> r == Ok::<i128, ContractError>(crate::arith::tdiv(price_sum(rs), rs.len() as int) as i128)
        }),
{
    let rs = get_token_price_history(history, token_id, periods);
    if rs.len() == 0 {
        return Err(ContractError::NotFound);
    }
    let mut sum: i128 = 0;
    let mut i: usize = 0;
    while i < rs.len()
        invariant
            i <= rs@.len(),
            sum == price_sum(rs@.subrange(0, i as int)),
        decreases rs@.len() - i,
    {
        assert(rs@.subrange(0, i + 1).drop_last() == rs@.subrange(0, i as int));
        assert(rs@.subrange(0, i + 1).last() == rs@[i as int]);
        sum = crate::arith::saturating_add_i128(sum, rs[i].price);
        i = i + 1;
    }
    assert(rs@.subrange(0, rs@.len() as int) == rs@);
    proof {
        crate::arith::lemma_tdiv_bounds(sum as int, rs@.len() as int);
    }
    Ok(sum / (rs.len() as i128))
}

} // verus!
