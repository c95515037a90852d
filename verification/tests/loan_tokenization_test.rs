use quorum_credit::errors::ContractError;
use quorum_credit::loan_tokenization::{
    calculate_average_price, cancel_market_order, create_market_order, distribute_interest_to_holders,
    get_active_market_orders, get_loan_token, get_token_price_history, record_token_price, register_token_holder,
    tokenize_loan_interest, LoanToken, MarketOrder, TokenPriceRecord,
};
use quorum_credit::types::Address;

fn account(n: u128) -> Address {
    Address::account(n, n)
}

/// Places an order the way the contract does: the book is the stored list
/// plus the new order, and the order id counter advances.
fn place(
    book: &mut Vec<MarketOrder>,
    next: &mut Option<u64>,
    seller: Address,
    token_id: u64,
    price: i128,
    amount: i128,
    now: u64,
) -> MarketOrder {
    let (order, following) = create_market_order(seller, token_id, price, amount, now, *next).unwrap();
    book.push(order);
    *next = Some(following);
    order
}

#[test]
fn test_orders_at_same_price_are_fifo_by_submission_time() {
    let seller1 = account(1);
    let seller2 = account(2);
    let mut book = Vec::new();
    let mut next = None;
    let first = place(&mut book, &mut next, seller1, 1, 50, 10, 100);
    let second = place(&mut book, &mut next, seller2, 1, 50, 10, 200);

    let active = get_active_market_orders(&book, 1);
    assert_eq!(active.len(), 2);
    assert_eq!(active[0].order_id, first.order_id);
    assert_eq!(active[1].order_id, second.order_id);
}

#[test]
fn test_better_price_is_matched_ahead_of_earlier_worse_price() {
    let seller = account(1);
    let mut book = Vec::new();
    let mut next = None;
    let worse = place(&mut book, &mut next, seller, 1, 80, 10, 100);
    let better = place(&mut book, &mut next, seller, 1, 40, 10, 200);

    let active = get_active_market_orders(&book, 1);
    assert_eq!(active[0].order_id, better.order_id);
    assert_eq!(active[1].order_id, worse.order_id);
}

#[test]
fn test_cancel_market_order_rejects_non_owner() {
    let seller = account(1);
    let stranger = account(2);
    let mut book = Vec::new();
    let mut next = None;
    let order = place(&mut book, &mut next, seller, 1, 50, 10, 0);

    let err = cancel_market_order(stranger, order.order_id, &book).unwrap_err();
    assert_eq!(err, ContractError::UnauthorizedCaller);

    let active = get_active_market_orders(&book, 1);
    assert_eq!(active.len(), 1);

    let book = cancel_market_order(seller, order.order_id, &book).unwrap();
    let active = get_active_market_orders(&book, 1);
    assert_eq!(active.len(), 0);
}

#[test]
fn test_loan_token_creation() {
    let borrower = account(1);
    let token_contract = Address::contract(9, 9);
    let token = LoanToken {
        token_id: 1,
        loan_id: 100,
        borrower,
        total_supply: 1_000_000,
        token_contract,
        created_at: 0,
        interest_distributed: 0,
    };

    assert_eq!(token.token_id, 1);
    assert_eq!(token.loan_id, 100);
    assert_eq!(token.total_supply, 1_000_000);
}

#[test]
fn cancel_unknown_order_is_not_found() {
    let book: Vec<MarketOrder> = Vec::new();
    assert_eq!(cancel_market_order(account(1), 7, &book).unwrap_err(), ContractError::NotFound);
}

#[test]
fn order_with_non_positive_price_or_amount_is_refused() {
    assert_eq!(create_market_order(account(1), 1, 0, 10, 0, None).unwrap_err(), ContractError::InvalidAmount);
    assert_eq!(create_market_order(account(1), 1, 10, -1, 0, None).unwrap_err(), ContractError::InvalidAmount);
}

#[test]
fn order_total_value_is_price_times_amount_and_saturates() {
    let (order, next) = create_market_order(account(1), 1, 25, 4, 7, Some(5)).unwrap();
    assert_eq!(order.order_id, 5);
    assert_eq!(order.total_value, 100);
    assert_eq!(order.created_at, 7);
    assert_eq!(next, 6);
    let (big, _) = create_market_order(account(1), 1, i128::MAX, 2, 7, None).unwrap();
    assert_eq!(big.total_value, i128::MAX);
    assert_eq!(big.order_id, 1);
}

#[test]
fn book_skips_other_tokens_and_breaks_time_ties_by_id() {
    let mut book = Vec::new();
    let mut next = None;
    let a = place(&mut book, &mut next, account(1), 1, 30, 1, 50);
    let _other = place(&mut book, &mut next, account(1), 2, 10, 1, 50);
    let b = place(&mut book, &mut next, account(2), 1, 30, 1, 50);
    let c = place(&mut book, &mut next, account(3), 1, 20, 1, 90);
    let active = get_active_market_orders(&book, 1);
    let ids: Vec<u64> = active.iter().map(|o| o.order_id).collect();
    assert_eq!(ids, vec![c.order_id, a.order_id, b.order_id]);
}

#[test]
fn tokenizing_assigns_sequential_ids() {
    let tokens = Vec::new();
    let (t1, tokens, next) = tokenize_loan_interest(10, account(1), 500, Address::contract(1, 1), 3, None, &tokens).unwrap();
    assert_eq!(t1.token_id, 1);
    assert_eq!(next, 2);
    let (t2, tokens, next) =
        tokenize_loan_interest(11, account(2), 700, Address::contract(1, 1), 4, Some(next), &tokens).unwrap();
    assert_eq!(t2.token_id, 2);
    assert_eq!(next, 3);
    assert_eq!(tokens.len(), 2);
    assert_eq!(get_loan_token(&tokens, 2).unwrap().loan_id, 11);
    assert_eq!(get_loan_token(&tokens, 9).unwrap_err(), ContractError::NotFound);
    assert_eq!(
        tokenize_loan_interest(12, account(3), 0, Address::contract(1, 1), 4, Some(next), &tokens).unwrap_err(),
        ContractError::InvalidAmount
    );
}

#[test]
fn interest_is_split_evenly_per_holder() {
    let (_, tokens, _) = tokenize_loan_interest(10, account(1), 500, Address::contract(1, 1), 3, None, &Vec::new()).unwrap();
    let d = distribute_interest_to_holders(1, 1000, 3, &tokens, 9).unwrap();
    assert_eq!(d.interest_per_token, 333);
    assert_eq!(d.token_holders, 3);
    assert_eq!(distribute_interest_to_holders(1, 1000, 0, &tokens, 9).unwrap_err(), ContractError::InvalidAmount);
    assert_eq!(distribute_interest_to_holders(1, 0, 3, &tokens, 9).unwrap_err(), ContractError::InvalidAmount);
    assert_eq!(distribute_interest_to_holders(4, 1000, 3, &tokens, 9).unwrap_err(), ContractError::NotFound);
}

#[test]
fn holders_are_registered_once() {
    let holders = register_token_holder(&Vec::new(), account(1));
    let holders = register_token_holder(&holders, account(2));
    let holders = register_token_holder(&holders, account(1));
    assert_eq!(holders, vec![account(1), account(2)]);
}

#[test]
fn price_history_and_average_use_the_last_records() {
    assert_eq!(record_token_price(1, -1, 0, 0).unwrap_err(), ContractError::InvalidAmount);
    let mut history: Vec<TokenPriceRecord> = Vec::new();
    history.push(record_token_price(1, 100, 1, 1).unwrap());
    history.push(record_token_price(2, 999, 1, 2).unwrap());
    history.push(record_token_price(1, 200, 1, 3).unwrap());
    history.push(record_token_price(1, 301, 1, 4).unwrap());
    let last_two = get_token_price_history(&history, 1, 2);
    assert_eq!(last_two.len(), 2);
    assert_eq!(last_two[0].price, 200);
    let all = get_token_price_history(&history, 1, 10);
    assert_eq!(all.len(), 3);
    assert_eq!(calculate_average_price(&history, 1, 10).unwrap(), 200);
    assert_eq!(calculate_average_price(&history, 1, 2).unwrap(), 250);
    assert_eq!(calculate_average_price(&history, 3, 10).unwrap_err(), ContractError::NotFound);
}
