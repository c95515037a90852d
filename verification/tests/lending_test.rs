use quorum_credit::defaults::plan_slash;
use quorum_credit::errors::ContractError;
use quorum_credit::escrow::DAY_SECS;
use quorum_credit::lending::{
    distribute_yield, is_zero_address, repay, sum_token_stake, EscrowStatus, LendingConfig, LoanRecord, LoanStatus,
    Transfer, VouchRecord,
};
use quorum_credit::loan_ops::{
    add_co_borrower, deposit_collateral, emit_repayment_reminders, is_eligible, loan_status, mint_reputation_nft,
    refinance_loan, register_referral, release_slash_escrow, repay_partial, send_repayment_reminder,
    set_borrower_risk_score, set_yield_reserve, RefinanceContext,
};
use quorum_credit::loan_pool::sum_all_stakes;
use quorum_credit::loans::{calculate_dynamic_yield, request_loan, LoanContext, LoanRequest};
use quorum_credit::types::Address;
use quorum_credit::QuorumCreditContract;

fn token() -> Address {
    Address::contract(100, 1)
}

fn other_token() -> Address {
    Address::contract(200, 2)
}

fn borrower() -> Address {
    Address::account(1, 1)
}

fn voucher(n: u128) -> Address {
    Address::account(10 + n, n)
}

fn cfg() -> LendingConfig {
    LendingConfig {
        token: token(),
        yield_bps: 200,
        slash_bps: 5000,
        min_loan_amount: 100,
        loan_duration: 30 * 86_400,
        max_loan_to_stake_ratio: 150,
        min_vouch_age_secs: 60,
        prepayment_penalty_bps: 0,
        liquidity_mining_rate_bps: 0,
        oracle_address: None,
    }
}

fn vouch(n: u128, stake: i128, tok: Address, ts: u64) -> VouchRecord {
    VouchRecord { voucher: voucher(n), stake, token: tok, vouch_timestamp: ts }
}

fn vouches() -> Vec<VouchRecord> {
    vec![vouch(1, 600, token(), 0), vouch(2, 400, token(), 0), vouch(3, 70, other_token(), 0)]
}

fn loan() -> LoanRecord {
    LoanRecord {
        id: 7,
        borrower: borrower(),
        amount: 1000,
        amount_repaid: 0,
        total_yield: 100,
        status: LoanStatus::Active,
        repaid: false,
        defaulted: false,
        escrow_status: EscrowStatus::NoEscrow,
        created_at: 0,
        disbursement_timestamp: 0,
        repayment_timestamp: None,
        deadline: 1000,
        token_address: token(),
        reminder_sent: false,
        risk_score: 0,
    }
}

fn full_repay(referrer: Option<Address>, balance: i128) -> quorum_credit::lending::RepayOutcome {
    repay(Some(loan()), borrower(), 1100, 500, &cfg(), &vouches(), Some(100), Some(voucher(9)), referrer, None, balance, Some(2))
        .unwrap()
}

#[test]
fn stake_sums_by_token() {
    assert_eq!(sum_token_stake(&vouches(), token()), 1000);
    assert_eq!(sum_token_stake(&vouches(), other_token()), 70);
    assert_eq!(sum_all_stakes(&vouches()), 1070);
    assert!(is_zero_address(Address::account(0, 0)));
    assert!(!is_zero_address(Address::contract(0, 0)));
}

#[test]
fn yield_is_shared_by_stake() {
    let (payouts, lines, total) = distribute_yield(&vouches(), token(), 100);
    assert_eq!(total, 100);
    assert_eq!(lines, vec![(voucher(1), 60), (voucher(2), 40)]);
    assert_eq!(
        payouts,
        vec![
            Transfer { token: token(), to: voucher(1), amount: 660 },
            Transfer { token: token(), to: voucher(2), amount: 440 },
        ]
    );
    // Rounding down never hands out more than is available.
    let three = vec![vouch(1, 1, token(), 0), vouch(2, 1, token(), 0), vouch(3, 1, token(), 0)];
    let (_, _, shared) = distribute_yield(&three, token(), 10);
    assert_eq!(shared, 9);
}

#[test]
fn partial_repayment_keeps_loan_active() {
    let o = repay(Some(loan()), borrower(), 300, 500, &cfg(), &vouches(), None, None, None, None, 0, None).unwrap();
    assert!(!o.fully_repaid);
    assert_eq!(o.loan.amount_repaid, 300);
    assert_eq!(o.loan.status, LoanStatus::Active);
    assert!(o.transfers.is_empty());
    assert_eq!(o.repayment_count, None);
}

#[test]
fn full_repayment_pays_fee_vouchers_and_referrer() {
    let o = full_repay(Some(voucher(8)), 50);
    assert!(o.fully_repaid);
    assert_eq!(o.loan.status, LoanStatus::Repaid);
    assert_eq!(o.loan.repayment_timestamp, Some(500));
    assert_eq!(o.repayment_count, Some(3));
    assert_eq!(
        o.transfers,
        vec![
            Transfer { token: token(), to: voucher(9), amount: 10 },
            Transfer { token: token(), to: voucher(1), amount: 660 },
            Transfer { token: token(), to: voucher(2), amount: 440 },
            Transfer { token: token(), to: voucher(8), amount: 10 },
        ]
    );
    assert_eq!(o.referral_bonus, Some((voucher(8), 10)));
    // The referral bonus is skipped when the contract cannot cover it.
    let o = full_repay(Some(voucher(8)), 5);
    assert_eq!(o.referral_bonus, None);
    assert_eq!(o.transfers.len(), 3);
}

#[test]
fn prepayment_penalty_goes_to_vouchers() {
    let mut c = cfg();
    c.prepayment_penalty_bps = 100;
    // Nothing repaid yet: the penalty is 1% of the whole principal.
    let o = repay(Some(loan()), borrower(), 1100, 500, &c, &vouches(), None, None, None, None, 0, None).unwrap();
    assert_eq!(o.yield_distribution, vec![(voucher(1), 66), (voucher(2), 44)]);
}

#[test]
fn repay_errors() {
    let r = repay(None, borrower(), 10, 500, &cfg(), &vouches(), None, None, None, None, 0, None);
    assert_eq!(r.err(), Some(ContractError::NoActiveLoan));
    let r = repay(Some(loan()), voucher(1), 10, 500, &cfg(), &vouches(), None, None, None, None, 0, None);
    assert_eq!(r.err(), Some(ContractError::UnauthorizedCaller));
    let mut done = loan();
    done.status = LoanStatus::Repaid;
    let r = repay(Some(done), borrower(), 10, 500, &cfg(), &vouches(), None, None, None, None, 0, None);
    assert_eq!(r.err(), Some(ContractError::NoActiveLoan));
}

fn purpose() -> String {
    "test loan".to_string()
}

fn request(amount: i128) -> LoanRequest {
    LoanRequest { borrower: borrower(), amount, threshold: 500, token: token() }
}

fn ctx() -> LoanContext {
    LoanContext {
        now: 1_000,
        blacklisted: false,
        token_allowed: true,
        has_active_loan: false,
        max_loan_amount: 0,
        min_vouchers: 2,
        contract_balance: 10_000,
        yield_reserve: 1_000,
        dynamic_yield_bps: 200,
        loan_count: 4,
        loan_id: 11,
    }
}

#[test]
fn request_loan_grants_within_ratio() {
    let g = request_loan(request(1500), &purpose(), &cfg(), ctx(), &vouches()).unwrap();
    assert_eq!(g.loan.id, 11);
    assert_eq!(g.loan.amount, 1500);
    assert_eq!(g.loan.total_yield, 30);
    assert_eq!(g.loan.deadline, 1_000 + 30 * 86_400);
    assert_eq!(g.loan.status, LoanStatus::Active);
    assert_eq!(g.loan_count, 5);
    assert_eq!(g.disbursement, Transfer { token: token(), to: borrower(), amount: 1500 });
}

#[test]
fn request_loan_refusals() {
    let mut c = ctx();
    c.blacklisted = true;
    assert_eq!(request_loan(request(500), &purpose(), &cfg(), c, &vouches()).err(), Some(ContractError::Blacklisted));
    let mut c = ctx();
    c.token_allowed = false;
    assert_eq!(request_loan(request(500), &purpose(), &cfg(), c, &vouches()).err(), Some(ContractError::InvalidToken));
    assert_eq!(request_loan(request(99), &purpose(), &cfg(), ctx(), &vouches()).err(), Some(ContractError::LoanBelowMinAmount));
    let mut c = ctx();
    c.max_loan_amount = 400;
    assert_eq!(request_loan(request(500), &purpose(), &cfg(), c, &vouches()).err(), Some(ContractError::LoanExceedsMaxAmount));
    let mut c = ctx();
    c.has_active_loan = true;
    assert_eq!(request_loan(request(500), &purpose(), &cfg(), c, &vouches()).err(), Some(ContractError::ActiveLoanExists));
    let huge = vec![vouch(1, i128::MAX, token(), 0), vouch(2, 1, token(), 0)];
    assert_eq!(request_loan(request(500), &purpose(), &cfg(), ctx(), &huge).err(), Some(ContractError::StakeOverflow));
    let mut c = ctx();
    c.min_vouchers = 3;
    assert_eq!(request_loan(request(500), &purpose(), &cfg(), c, &vouches()).err(), Some(ContractError::InsufficientVouchers));
    let fresh = vec![vouch(1, 600, token(), 0), vouch(2, 400, token(), 990)];
    assert_eq!(request_loan(request(500), &purpose(), &cfg(), ctx(), &fresh).err(), Some(ContractError::VouchTooRecent));
    let mut c = ctx();
    c.contract_balance = 499;
    assert_eq!(request_loan(request(500), &purpose(), &cfg(), c, &vouches()).err(), Some(ContractError::InsufficientFunds));
    let mut c = ctx();
    c.yield_reserve = 9;
    assert_eq!(request_loan(request(500), &purpose(), &cfg(), c, &vouches()).err(), Some(ContractError::InsufficientYieldReserve));
}

#[test]
fn dynamic_yield_rate() {
    assert_eq!(calculate_dynamic_yield(200, 500, 0), 205);
    assert_eq!(calculate_dynamic_yield(200, 0, 2), 100);
    assert_eq!(calculate_dynamic_yield(200, 0, 10), 0);
}

#[test]
fn slash_returns_rest_and_counts_default() {
    let (o, claim) = QuorumCreditContract::slash(loan(), 5000, &vouches(), Some(1));
    assert_eq!(o.loan.status, LoanStatus::Defaulted);
    assert_eq!(o.total_slashed, 500);
    assert_eq!(o.default_count, 2);
    assert_eq!(
        o.transfers,
        vec![
            Transfer { token: token(), to: voucher(1), amount: 300 },
            Transfer { token: token(), to: voucher(2), amount: 200 },
            Transfer { token: other_token(), to: voucher(3), amount: 70 },
        ]
    );
    // The loan amount not covered by the slash is claimed from insurance.
    assert_eq!(claim, Some(500));
    assert!(o.clear_active_loan && o.clear_vouches && o.burn_reputation);
    assert_eq!(o.tvl_decrease, 1000);
}

#[test]
fn slash_conserves_stake() {
    for bps in [0i128, 1, 3333, 5000, 9999, 10_000] {
        let (transfers, slashed) = plan_slash(&vouches(), token(), bps, false);
        let returned: i128 = transfers.iter().map(|t| t.amount).sum();
        assert_eq!(returned + slashed, 1000);
    }
}

#[test]
fn auto_slash_after_deadline() {
    let after = vouches();
    let o = QuorumCreditContract::auto_slash(loan(), 1001, 5000, &after, None);
    assert!(o.loan.defaulted);
    assert_eq!(o.loan.status, LoanStatus::Defaulted);
    assert_eq!(o.total_slashed, 500);
    assert_eq!(o.default_count, 1);
    // The standard slash penalty, applied once per vouch.
    assert_eq!(
        o.transfers,
        vec![
            Transfer { token: token(), to: voucher(1), amount: 300 },
            Transfer { token: token(), to: voucher(2), amount: 200 },
            Transfer { token: other_token(), to: voucher(3), amount: 70 },
        ]
    );
    assert!(o.clear_active_loan && o.clear_vouches && o.burn_reputation);
    assert_eq!(o.tvl_decrease, 1000);
}

#[test]
fn claim_expired_loan_refunds_stakes() {
    let o = QuorumCreditContract::claim_expired_loan(loan(), 1000, &vouches(), Some(0));
    assert_eq!(o.loan.status, LoanStatus::Defaulted);
    assert_eq!(o.total_slashed, 0);
    assert_eq!(o.transfers.len(), 5);
    assert_eq!(o.transfers[4], Transfer { token: other_token(), to: voucher(3), amount: 70 });
    assert!(o.clear_active_loan && o.clear_vouches && !o.burn_reputation);
    assert_eq!(o.tvl_decrease, 1000);
    let (left, t) = QuorumCreditContract::slash_treasury(500, token(), voucher(4));
    assert_eq!(left, 0);
    assert_eq!(t, Transfer { token: token(), to: voucher(4), amount: 500 });
}

fn escrowed_loan() -> LoanRecord {
    let mut l = loan();
    l.escrow_status = EscrowStatus::Pending;
    l.amount_repaid = 1100;
    l.disbursement_timestamp = 40 * DAY_SECS;
    l
}

#[test]
fn oracle_approval_pays_tiered_yield() {
    let oracle = voucher(7);
    // Voucher 1 vouched 40 days before disbursement (150%), voucher 2
    // 10 days before (125%).
    let vs = vec![vouch(1, 600, token(), 0), vouch(2, 400, token(), 30 * DAY_SECS)];
    let o = QuorumCreditContract::verify_repayment(oracle, Some(oracle), Some(escrowed_loan()), true, 1100, true, 5, &vs, 100, 0)
        .unwrap();
    assert_eq!(o.loan.status, LoanStatus::Repaid);
    assert_eq!(o.loan.escrow_status, EscrowStatus::Released);
    assert_eq!(o.repayment_count, Some(1));
    assert!(o.clear_active_loan && o.clear_vouches && o.clear_escrow);
    assert_eq!(
        o.transfers,
        vec![
            Transfer { token: token(), to: voucher(1), amount: 600 + 90 + 6 },
            Transfer { token: token(), to: voucher(2), amount: 400 + 50 + 4 },
        ]
    );
}

#[test]
fn oracle_rejection_refunds_borrower() {
    let oracle = voucher(7);
    let o = QuorumCreditContract::verify_repayment(oracle, Some(oracle), Some(escrowed_loan()), false, 300, true, 5, &vouches(), 0, 0)
        .unwrap();
    assert_eq!(o.loan.escrow_status, EscrowStatus::Rejected);
    assert_eq!(o.loan.amount_repaid, 800);
    assert!(!o.clear_active_loan && !o.clear_vouches && o.clear_escrow);
    assert_eq!(o.transfers, vec![Transfer { token: token(), to: borrower(), amount: 300 }]);
    let r = QuorumCreditContract::verify_repayment(voucher(6), Some(oracle), Some(escrowed_loan()), true, 0, true, 5, &vouches(), 0, 0);
    assert_eq!(r.err(), Some(ContractError::OracleUnauthorized));
    let r = QuorumCreditContract::verify_repayment(oracle, Some(oracle), Some(loan()), true, 0, true, 5, &vouches(), 0, 0);
    assert_eq!(r.err(), Some(ContractError::NoEscrowFound));
}

#[test]
fn loan_pool_disburses_all_or_nothing() {
    let b1 = Address::account(31, 1);
    let b2 = Address::account(32, 2);
    let sets = vec![vec![vouch(1, 1000, token(), 0)], vec![vouch(2, 2000, token(), 0)]];
    let o = QuorumCreditContract::create_loan_pool(
        &vec![b1, b2],
        &vec![500, 1000],
        &vec![false, false],
        &sets,
        20,
        &cfg(),
        10,
        4,
        5_000,
    )
    .unwrap();
    assert_eq!(o.record.pool_id, 5);
    assert_eq!(o.record.total_disbursed, 1500);
    assert_eq!(o.loans[0].id, 21);
    assert_eq!(o.loans[1].id, 22);
    assert_eq!(o.loan_counter, 22);
    assert_eq!(o.loans[1].total_yield, 20);
    assert_eq!(o.transfers[0], Transfer { token: token(), to: b1, amount: 500 });
    let err = QuorumCreditContract::create_loan_pool(&vec![b1], &vec![500, 1], &vec![false], &sets, 0, &cfg(), 10, 4, 5_000);
    assert_eq!(err.err(), Some(ContractError::PoolLengthMismatch));
    let err = QuorumCreditContract::create_loan_pool(&vec![], &vec![], &vec![], &vec![], 0, &cfg(), 10, 4, 5_000);
    assert_eq!(err.err(), Some(ContractError::PoolEmpty));
    let err = QuorumCreditContract::create_loan_pool(
        &vec![b1, b2],
        &vec![500, 1000],
        &vec![false, true],
        &sets,
        20,
        &cfg(),
        10,
        4,
        5_000,
    );
    assert_eq!(err.err(), Some(ContractError::PoolBorrowerActiveLoan));
    let err = QuorumCreditContract::create_loan_pool(
        &vec![b1, b2],
        &vec![500, 1000],
        &vec![false, false],
        &sets,
        20,
        &cfg(),
        10,
        4,
        1_499,
    );
    assert_eq!(err.err(), Some(ContractError::PoolInsufficientFunds));
}

#[test]
fn partial_repay_and_refinance() {
    let p = repay_partial(Some(loan()), borrower(), 1100, token(), true, 9, 0).unwrap();
    assert_eq!(p.loan.status, LoanStatus::Repaid);
    assert_eq!(p.repayment_count, Some(1));
    assert_eq!(p.transfer, Transfer { token: token(), to: borrower(), amount: 1100 });
    let p = repay_partial(Some(loan()), borrower(), 100, token(), true, 9, 0).unwrap();
    assert_eq!(p.loan.amount_repaid, 100);
    assert_eq!(p.repayment_count, None);
    assert_eq!(repay_partial(Some(loan()), borrower(), 100, token(), false, 9, 0).err(), Some(ContractError::InvalidToken));
    let rctx = RefinanceContext {
        now: 50,
        contract: Address::contract(9, 9),
        token_allowed: true,
        max_loan_amount: 0,
        contract_balance: 5_000,
        dynamic_yield_bps: 300,
        loan_count: 1,
        loan_id: 12,
    };
    let r = refinance_loan(Some(loan()), borrower(), 800, 500, token(), &cfg(), rctx, &vouches()).unwrap();
    assert_eq!(r.old_loan.status, LoanStatus::Repaid);
    assert_eq!(r.new_loan.total_yield, 24);
    assert_eq!(r.loan_count, 2);
    assert_eq!(r.transfers[0], Transfer { token: token(), to: Address::contract(9, 9), amount: 1100 });
    let r = refinance_loan(None, borrower(), 800, 500, token(), &cfg(), rctx, &vouches());
    assert_eq!(r.err(), Some(ContractError::NoActiveLoan));
}

#[test]
fn loan_housekeeping() {
    let co = add_co_borrower(borrower(), voucher(1), Some(loan()), &vec![]).unwrap();
    assert_eq!(co, vec![voucher(1)]);
    assert_eq!(add_co_borrower(borrower(), voucher(1), Some(loan()), &co).err(), Some(ContractError::DuplicateVouch));
    let reminded = send_repayment_reminder(Some(loan())).unwrap();
    assert!(reminded.reminder_sent);
    assert_eq!(send_repayment_reminder(Some(reminded)).err(), Some(ContractError::ReminderAlreadySent));
    let mut soon = loan();
    soon.deadline = 1_000 + 3 * 86_400;
    let mut late = loan();
    late.deadline = 1_000 + 8 * 86_400;
    assert_eq!(emit_repayment_reminders(&vec![Some(soon), None, Some(late)], 1_000), vec![(borrower(), soon.deadline)]);
    assert_eq!(release_slash_escrow(Some((70, 100)), 99), Err(ContractError::InvalidStateTransition));
    assert_eq!(release_slash_escrow(Some((70, 100)), 100), Ok(70));
    assert_eq!(set_yield_reserve(-1), Err(ContractError::InvalidAmount));
    assert_eq!(set_borrower_risk_score(Some(loan()), 101).err(), Some(ContractError::InvalidAmount));
    assert_eq!(set_borrower_risk_score(Some(loan()), 40).unwrap().risk_score, 40);
    assert_eq!(deposit_collateral(10, true, i128::MAX), Err(ContractError::StakeOverflow));
    assert_eq!(deposit_collateral(10, true, 5), Ok(15));
    assert_eq!(register_referral(borrower(), voucher(1), true), Err(ContractError::ActiveLoanExists));
    assert!(is_eligible(None, &vouches(), 1000, token()));
    assert!(!is_eligible(Some(loan()), &vouches(), 1000, token()));
    assert!(!is_eligible(None, &vouches(), 1001, token()));
    assert_eq!(loan_status(None), LoanStatus::NoLoan);
    assert_eq!(QuorumCreditContract::confirm_repayment(Some(loan())), Ok(7));
    assert_eq!(QuorumCreditContract::retry_repayment(Some(loan()), 3), Err(ContractError::MaxRetriesExceeded));
    assert_eq!(QuorumCreditContract::retry_repayment(Some(loan()), 2), Ok(3));
    let statuses = QuorumCreditContract::batch_loan_status(&vec![borrower(), voucher(1)], &vec![Some(loan()), None]).unwrap();
    assert_eq!(statuses, vec![(borrower(), LoanStatus::Active), (voucher(1), LoanStatus::NoLoan)]);
    assert!(QuorumCreditContract::batch_loan_status(&vec![], &vec![]).is_err());
    assert_eq!(mint_reputation_nft(0, Some(voucher(1))), Err(ContractError::NoActiveLoan));
}

fn pool_cfg() -> LendingConfig {
    let mut c = cfg();
    c.min_loan_amount = 100_000;
    c
}

#[test]
fn test_create_loan_pool_success() {
    let borrower1 = Address::account(41, 1);
    let borrower2 = Address::account(42, 2);
    let sets = vec![vec![vouch(1, 2_000_000, token(), 0)], vec![vouch(2, 2_000_000, token(), 0)]];
    let o = QuorumCreditContract::create_loan_pool(
        &vec![borrower1, borrower2],
        &vec![500_000, 300_000],
        &vec![false, false],
        &sets,
        0,
        &pool_cfg(),
        1_000_000,
        0,
        10_000_000,
    )
    .unwrap();
    assert_eq!(o.record.pool_id, 1);
    assert_eq!(o.record.total_disbursed, 800_000);
    assert_eq!(o.record.borrowers.len(), 2);
    assert_eq!(o.loans[0].amount, 500_000);
    assert_eq!(o.loans[1].amount, 300_000);
    assert_eq!(o.transfers[0], Transfer { token: token(), to: borrower1, amount: 500_000 });
    assert_eq!(o.transfers[1], Transfer { token: token(), to: borrower2, amount: 300_000 });
}

#[test]
fn test_create_loan_pool_increments_pool_id() {
    let sets = vec![vec![vouch(1, 2_000_000, token(), 0)]];
    let first = QuorumCreditContract::create_loan_pool(
        &vec![Address::account(51, 1)],
        &vec![500_000],
        &vec![false],
        &sets,
        0,
        &pool_cfg(),
        10,
        0,
        10_000_000,
    )
    .unwrap();
    assert_eq!(first.record.pool_id, 1);
    let second = QuorumCreditContract::create_loan_pool(
        &vec![Address::account(52, 2)],
        &vec![500_000],
        &vec![false],
        &sets,
        first.loan_counter,
        &pool_cfg(),
        10,
        first.record.pool_id,
        10_000_000,
    )
    .unwrap();
    assert_eq!(second.record.pool_id, 2);
    assert_eq!(second.loans[0].id, 2);
}

#[test]
fn test_create_loan_pool_length_mismatch_rejected() {
    let r = QuorumCreditContract::create_loan_pool(
        &vec![Address::account(61, 1)],
        &vec![],
        &vec![false],
        &vec![vec![]],
        0,
        &pool_cfg(),
        10,
        0,
        10_000_000,
    );
    assert_eq!(r.err(), Some(ContractError::PoolLengthMismatch));
}

#[test]
fn test_create_loan_pool_empty_rejected() {
    let r = QuorumCreditContract::create_loan_pool(&vec![], &vec![], &vec![], &vec![], 0, &pool_cfg(), 10, 0, 10_000_000);
    assert_eq!(r.err(), Some(ContractError::PoolEmpty));
}

#[test]
fn test_create_loan_pool_rejects_active_loan_borrower() {
    let r = QuorumCreditContract::create_loan_pool(
        &vec![borrower()],
        &vec![500_000],
        &vec![true],
        &vec![vec![vouch(1, 2_000_000, token(), 0)]],
        0,
        &pool_cfg(),
        10,
        0,
        10_000_000,
    );
    assert_eq!(r.err(), Some(ContractError::PoolBorrowerActiveLoan));
}

fn big_loan(amount: i128) -> LoanRecord {
    let mut l = loan();
    l.amount = amount;
    l.total_yield = amount * 200 / 10_000;
    l
}

#[test]
fn test_repay_gives_voucher_yield() {
    let stake = 1_000_000;
    let vs = vec![vouch(1, stake, token(), 0)];
    let l = big_loan(100_000);
    let owed = l.amount + l.total_yield;
    let o = repay(Some(l), borrower(), owed, 500, &cfg(), &vs, None, None, None, None, 0, None).unwrap();
    assert!(o.fully_repaid);
    let paid: i128 = o.transfers.iter().filter(|t| t.to == voucher(1)).map(|t| t.amount).sum();
    assert!(paid > stake, "voucher should receive stake + yield");
}

#[test]
fn test_vouch_at_min_yield_stake_earns_nonzero_yield() {
    let vs = vec![vouch(1, 1_000_000, token(), 0)];
    let l = big_loan(100_000);
    let owed = l.amount + l.total_yield;
    let o = repay(Some(l), borrower(), owed, 500, &cfg(), &vs, None, None, None, None, 0, None).unwrap();
    assert_eq!(o.yield_distribution, vec![(voucher(1), 2_000)]);
    assert!(o.yield_distribution[0].1 > 0, "voucher yield was zero");
}

#[test]
fn test_partial_repay_i4_holds() {
    let vs = vec![vouch(1, 10_000_000, token(), 0)];
    let l = big_loan(2_000_000);
    let half = repay(Some(l), borrower(), 1_000_000, 500, &cfg(), &vs, None, None, None, None, 0, None).unwrap();
    assert!(!half.fully_repaid);
    assert!(half.loan.amount_repaid <= half.loan.amount + half.loan.total_yield);
    let yield_amount = 2_000_000i128 * 200 / 10_000;
    let rest =
        repay(Some(half.loan), borrower(), 1_000_000 + yield_amount, 600, &cfg(), &vs, None, None, None, None, 0, None)
            .unwrap();
    assert!(rest.fully_repaid);
    assert_eq!(rest.loan.amount_repaid, rest.loan.amount + rest.loan.total_yield);
    assert_eq!(rest.loan.status, LoanStatus::Repaid);
}

#[test]
fn test_loan_below_min_rejected() {
    let mut c = cfg();
    c.min_loan_amount = 100_000;
    let vs = vec![vouch(1, 10_000_000, token(), 0), vouch(2, 10_000_000, token(), 0)];
    let r = request_loan(request(1), &purpose(), &c, ctx(), &vs);
    assert!(r.is_err(), "sub-minimum loan must be rejected");
    assert_eq!(r.err(), Some(ContractError::LoanBelowMinAmount));
}

#[test]
fn vouch_exists_finds_the_voucher() {
    assert!(QuorumCreditContract::vouch_exists(&vouches(), voucher(2)));
    assert!(!QuorumCreditContract::vouch_exists(&vouches(), voucher(5)));
    assert!(!QuorumCreditContract::vouch_exists(&Vec::new(), voucher(1)));
}

#[test]
fn test_slash_burns_reputation() {
    // A repaid loan leaves the borrower's reputation alone; a slash burns it.
    let repaid = repay(Some(big_loan(500_000)), borrower(), 510_000, 500, &cfg(), &vec![vouch(1, 1_000_000, token(), 0)], None, None, None, None, 0, None)
        .unwrap();
    assert!(repaid.fully_repaid);
    let (o, _) = QuorumCreditContract::slash(big_loan(500_000), 5000, &vec![vouch(2, 1_000_000, token(), 0)], None);
    assert!(o.burn_reputation);
    assert_eq!(o.loan.status, LoanStatus::Defaulted);
}

#[test]
fn request_loan_accepts_a_zero_threshold() {
    let mut r = request(500);
    r.threshold = 0;
    let g = request_loan(r, &purpose(), &cfg(), ctx(), &vouches()).unwrap();
    assert_eq!(g.loan.amount, 500);
}

#[test]
fn test_loan_purpose_stored() {
    let purpose = "buy equipment".to_string();
    let g = request_loan(request(1_000), &purpose, &cfg(), ctx(), &vouches()).unwrap();
    assert_eq!(g.loan_purpose, purpose, "loan purpose mismatch");
}
