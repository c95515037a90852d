use quorum_credit::errors::ContractError;
use quorum_credit::loan_priority::{
    create_loan_priority_queue, route_default_proceeds, LoanPriority, Payout, PriorityLoanEntry,
};
use quorum_credit::types::Address;

fn token() -> Address {
    Address::contract(1, 1)
}

fn entry(loan_id: u64, n: u128, priority: LoanPriority, amount: i128) -> PriorityLoanEntry {
    PriorityLoanEntry { loan_id, borrower: Address::account(n, n), priority, amount }
}

#[test]
fn route_default_proceeds_transfers_tokens_with_a_shortfall() {
    let senior = entry(1, 10, LoanPriority::Senior, 100_000);
    let junior = entry(2, 20, LoanPriority::Junior, 100_000);
    let queue = create_loan_priority_queue(0, &vec![junior, senior], 120).unwrap();
    let o = route_default_proceeds(Some(queue), &vec![Ok(token()), Ok(token())], None, 0, 100_000, 120).unwrap();
    assert_eq!(o.run.distributed, 100_000);
    assert_eq!(o.run.shortfall, 0);
    // Senior is made whole; Junior receives nothing when proceeds run out.
    assert_eq!(o.payouts, vec![Payout { loan_id: 1, to: senior.borrower, amount: 100_000, token: token() }]);
    assert_eq!(o.run.entries[1].paid, 0);
}

#[test]
fn route_default_proceeds_twice_without_a_new_queue_is_rejected() {
    let e = entry(1, 10, LoanPriority::Senior, 100_000);
    let queue = create_loan_priority_queue(0, &vec![e], 120).unwrap();
    let first = route_default_proceeds(Some(queue), &vec![Ok(token())], None, 0, 100_000, 120).unwrap();
    assert_eq!(first.payouts.len(), 1);
    // The run consumed the queue: a second call finds none.
    assert!(first.queue.is_none());
    let second = route_default_proceeds(first.queue, &vec![], Some(first.run.run_id), 0, 100_000, 130);
    assert_eq!(second.err(), Some(ContractError::InvalidAmount));
}

#[test]
fn waterfall_pays_partial_last_tranche_and_keeps_the_rest() {
    let a = entry(1, 10, LoanPriority::Mezzanine, 300);
    let b = entry(2, 20, LoanPriority::Senior, 500);
    let c = entry(3, 30, LoanPriority::Junior, 400);
    let queue = create_loan_priority_queue(0, &vec![a, b, c], 1).unwrap();
    assert_eq!(queue.entries.iter().map(|e| e.loan_id).collect::<Vec<_>>(), vec![2, 1, 3]);
    let o = route_default_proceeds(Some(queue), &vec![Ok(token()); 3], Some(4), 7, 1_000, 2).unwrap();
    assert_eq!(o.run.run_id, 5);
    assert_eq!(o.run.entries.iter().map(|l| l.paid).collect::<Vec<_>>(), vec![500, 300, 200]);
    assert_eq!(o.run.distributed, 1_000);
    assert_eq!(o.run.shortfall, 0);
    let o2 = route_default_proceeds(
        Some(create_loan_priority_queue(0, &vec![a], 1).unwrap()),
        &vec![Ok(token())],
        None,
        7,
        1_000,
        2,
    )
    .unwrap();
    assert_eq!(o2.run.distributed, 300);
    assert_eq!(o2.run.shortfall, 700);
    assert_eq!(
        route_default_proceeds(Some(create_loan_priority_queue(0, &vec![a], 1).unwrap()), &vec![Err(ContractError::NotFound)], None, 7, 10, 2)
            .err(),
        Some(ContractError::NotFound)
    );
}
