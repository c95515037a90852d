use quorum_credit::errors::ContractError;
use quorum_credit::lending::{EscrowStatus, LoanRecord, LoanStatus};
use quorum_credit::loan_attribution::{
    analyze_loan_performance_attribution, generate_factor_performance_report, loan_outcome,
    predict_loan_success_probability_bps, record_performance_factors, update_factor_aggregate, FactorAggregate,
    LoanOutcome,
};
use quorum_credit::recurring_payment::{
    execute_recurring_payment, record_recurring_payment_failure, recurring_payment_success_rate,
    setup_recurring_payment, terminate_recurring_payment,
};
use quorum_credit::types::Address;

fn borrower() -> Address {
    Address::account(1, 1)
}

fn token() -> Address {
    Address::contract(2, 2)
}

fn loan() -> LoanRecord {
    LoanRecord {
        id: 1,
        borrower: borrower(),
        amount: 1_000,
        amount_repaid: 0,
        total_yield: 20,
        status: LoanStatus::Active,
        repaid: false,
        defaulted: false,
        escrow_status: EscrowStatus::NoEscrow,
        created_at: 0,
        disbursement_timestamp: 0,
        repayment_timestamp: None,
        deadline: 10_000,
        token_address: token(),
        reminder_sent: false,
        risk_score: 0,
    }
}

#[test]
fn schedule_setup_checks() {
    assert_eq!(setup_recurring_payment(borrower(), token(), 0, 10, 5, true, true, None), Err(ContractError::InvalidAmount));
    assert_eq!(setup_recurring_payment(borrower(), token(), 10, 0, 5, true, true, None), Err(ContractError::InvalidAmount));
    assert_eq!(setup_recurring_payment(borrower(), token(), 10, 10, 5, false, true, None), Err(ContractError::InvalidToken));
    assert_eq!(setup_recurring_payment(borrower(), token(), 10, 10, 5, true, false, None), Err(ContractError::NoActiveLoan));
    let c = setup_recurring_payment(borrower(), token(), 100, 30, 50, true, true, None).unwrap();
    assert_eq!(c.next_payment_due, 50);
    assert!(c.active);
    assert_eq!(
        setup_recurring_payment(borrower(), token(), 100, 30, 50, true, true, Some(c)),
        Err(ContractError::RecurringPaymentExists)
    );
    // An inactive schedule can be replaced.
    let stopped = terminate_recurring_payment(Some(c)).unwrap();
    assert!(!stopped.active);
    assert!(setup_recurring_payment(borrower(), token(), 100, 30, 50, true, true, Some(stopped)).is_ok());
}

#[test]
fn payments_run_once_due_and_advance_the_schedule() {
    let c = setup_recurring_payment(borrower(), token(), 100, 30, 50, true, true, None).unwrap();
    assert_eq!(execute_recurring_payment(Some(c), 49, Some(loan()), true), Err(ContractError::RecurringPaymentNotDue));
    let (c, l, paid) = execute_recurring_payment(Some(c), 50, Some(loan()), true).unwrap();
    assert_eq!(paid, 100);
    assert_eq!(l.amount_repaid, 100);
    assert_eq!(c.next_payment_due, 80);
    assert_eq!(c.success_count, 1);
    assert_eq!(execute_recurring_payment(Some(c), 79, Some(l), true), Err(ContractError::RecurringPaymentNotDue));
    assert_eq!(execute_recurring_payment(Some(c), 80, None, true), Err(ContractError::NoActiveLoan));
    assert_eq!(execute_recurring_payment(Some(c), 80, Some(l), false), Err(ContractError::InvalidToken));
    assert_eq!(execute_recurring_payment(None, 80, Some(l), true), Err(ContractError::RecurringPaymentNotFound));
    let stopped = terminate_recurring_payment(Some(c)).unwrap();
    assert_eq!(execute_recurring_payment(Some(stopped), 80, Some(l), true), Err(ContractError::RecurringPaymentInactive));
}

#[test]
fn failures_and_success_rate() {
    let c = setup_recurring_payment(borrower(), token(), 100, 30, 0, true, true, None).unwrap();
    assert_eq!(recurring_payment_success_rate(Some(c)), 0);
    let (c, retries) = record_recurring_payment_failure(Some(c)).unwrap();
    assert_eq!(retries, 1);
    let (c, _, _) = execute_recurring_payment(Some(c), 0, Some(loan()), true).unwrap();
    assert_eq!(c.retry_count, 0);
    let (c, _, _) = execute_recurring_payment(Some(c), 30, Some(loan()), true).unwrap();
    let (c, _, _) = execute_recurring_payment(Some(c), 60, Some(loan()), true).unwrap();
    // 3 successes out of 4 attempts.
    assert_eq!(recurring_payment_success_rate(Some(c)), 7_500);
    assert_eq!(recurring_payment_success_rate(None), 0);
    assert_eq!(record_recurring_payment_failure(None), Err(ContractError::RecurringPaymentNotFound));
}

#[test]
fn outcomes_of_statuses() {
    assert_eq!(loan_outcome(LoanStatus::Repaid), LoanOutcome::Success);
    assert_eq!(loan_outcome(LoanStatus::Defaulted), LoanOutcome::Failure);
    assert_eq!(loan_outcome(LoanStatus::ForgivenDefault), LoanOutcome::Failure);
    assert_eq!(loan_outcome(LoanStatus::Active), LoanOutcome::Pending);
}

#[test]
fn attribution_by_the_weighted_model() {
    let (f, count) =
        record_performance_factors(9, borrower(), 1_000, 12_000, "farming".to_string(), "north".to_string(), 77, 0);
    assert_eq!(count, 1);
    assert_eq!(f.recorded_at, 77);
    let a = analyze_loan_performance_attribution(9, Some(LoanStatus::Repaid), &Some(f), 100);
    assert_eq!(a.outcome, LoanOutcome::Success);
    assert_eq!(a.contributions.len(), 4);
    assert_eq!(a.contributions[0].factor_name, "credit_score");
    assert_eq!(a.contributions[0].contribution_bps, 4_000);
    assert_eq!(a.contributions[1].contribution_bps, 700);
    assert_eq!(a.contributions[2].factor_name, "farming");
    assert_eq!(a.contributions[3].weight_bps, 1_000);
    assert_eq!(a.total_score_bps, 4_700);
    // A weak credit score counts against the loan.
    let (weak, _) = record_performance_factors(10, borrower(), 100, 10_000, "x".to_string(), "y".to_string(), 0, 1);
    let a = analyze_loan_performance_attribution(10, None, &Some(weak), 100);
    assert_eq!(a.outcome, LoanOutcome::Pending);
    assert_eq!(a.contributions[0].contribution_bps, -4_000);
    let none = analyze_loan_performance_attribution(11, None, &None, 100);
    assert!(none.contributions.is_empty());
    assert_eq!(none.total_score_bps, 0);
}

#[test]
fn aggregates_report_and_prediction() {
    let (f, _) =
        record_performance_factors(9, borrower(), 1_000, 12_000, "farming".to_string(), "north".to_string(), 0, 0);
    let a = analyze_loan_performance_attribution(9, Some(LoanStatus::Repaid), &Some(f), 0);
    let credit = &a.contributions[0];
    assert!(update_factor_aggregate(None, credit, LoanOutcome::Pending).is_none());
    let mut agg: Option<FactorAggregate> = None;
    for outcome in [LoanOutcome::Success, LoanOutcome::Success, LoanOutcome::Failure, LoanOutcome::Success] {
        agg = update_factor_aggregate(agg, credit, outcome);
    }
    let agg = agg.unwrap();
    assert_eq!(agg.loans_observed, 4);
    assert_eq!(agg.successes, 3);
    assert_eq!(agg.failures, 1);
    assert_eq!(agg.cumulative_contribution_bps, 16_000);

    let copy = FactorAggregate { factor_name: agg.factor_name.clone(), ..agg };
    let report = generate_factor_performance_report(&vec![Some(copy), None, None, None], 55);
    assert_eq!(report.factors.len(), 1);
    assert_eq!(report.total_loans_analyzed, 4);
    assert_eq!(report.generated_at, 55);

    // With no evidence: (500_000 + 10_000 * 50 + 10_000 * 30) / 180.
    let p = predict_loan_success_probability_bps(&vec![None, None, None, None], 1_000, 10_000, &"s".to_string(), &"r".to_string());
    assert_eq!(p, 7_222);
    // The credit-score aggregate (75% over 4 loans) adds its evidence.
    let p = predict_loan_success_probability_bps(&vec![Some(agg), None, None, None], 1_000, 10_000, &"s".to_string(), &"r".to_string());
    assert_eq!(p, 7_228);
}
