//! Loan performance attribution: the factors recorded at origination
//! (credit score, vouch quality, sector, region), how much each contributed
//! to a loan's outcome under a fixed weighted model, the running aggregate
//! per factor, and a success estimate for a new loan built from them.
use vstd::prelude::*;
use crate::arith::{lemma_tdiv_bounds, tdiv};
use crate::lending::LoanStatus;
use crate::types::Address;

verus! {

/// The realized outcome of a loan.
#[derive(Clone, Copy, Debug, PartialEq, Eq, Structural)]
pub enum LoanOutcome {
    Success,
    Failure,
    Pending,
}

/// The outcome a loan status stands for.
pub open spec fn outcome_of(status: LoanStatus) -> LoanOutcome {
    match status {
        LoanStatus::Repaid => LoanOutcome::Success,
        LoanStatus::Defaulted | LoanStatus::PartialDefault | LoanStatus::ForgivenDefault => LoanOutcome::Failure,
        LoanStatus::Active | LoanStatus::NoLoan => LoanOutcome::Pending,
    }
}

/// The outcome of a loan with status `status`: repaid loans succeeded, any
/// kind of default failed, the rest is pending.
pub fn loan_outcome(status: LoanStatus) -> (o: LoanOutcome)
    ensures
        o == outcome_of(status),
{
    match status {
        LoanStatus::Repaid => LoanOutcome::Success,
        LoanStatus::Defaulted | LoanStatus::PartialDefault | LoanStatus::ForgivenDefault => LoanOutcome::Failure,
        LoanStatus::Active | LoanStatus::NoLoan => LoanOutcome::Pending,
    }
}

/// The drivers of a loan's outcome, recorded at origination.
pub struct PerformanceFactors {
    pub loan_id: u64,
    pub borrower: Address,
    /// Credit score on a 0-1000 scale.
    pub credit_score: u32,
    /// Vouch quality in basis points (10_000 is neutral).
    pub vouch_quality_bps: u32,
    pub sector: String,
    pub region: String,
    pub recorded_at: u64,
}

/// Record the factors of a loan at `now`; `count` loans had factors
/// recorded before. Returns the record and the new count.
pub fn record_performance_factors(
    loan_id: u64,
    borrower: Address,
    credit_score: u32,
    vouch_quality_bps: u32,
    sector: String,
    region: String,
    now: u64,
    count: u32,
) -> (r: (PerformanceFactors, u32))
    requires
        count < u32::MAX,
    ensures
        r.0.loan_id == loan_id,
        r.0.borrower == borrower,
        r.0.credit_score == credit_score,
        r.0.vouch_quality_bps == vouch_quality_bps,
        r.0.sector@ == sector@,
        r.0.region@ == region@,
        r.0.recorded_at == now,
        r.1 == count + 1,
{
    (PerformanceFactors { loan_id, borrower, credit_score, vouch_quality_bps, sector, region, recorded_at: now }, count + 1)
}

/// One factor's contribution to an outcome, in basis points (positive
/// pushes toward success), with the factor's weight in the model.
pub struct FactorContribution {
    pub factor_name: String,
    pub contribution_bps: i128,
    pub weight_bps: u32,
}

/// The attribution of a loan's outcome to its factors.
pub struct Attribution {
    pub loan_id: u64,
    pub outcome: LoanOutcome,
    pub contributions: Vec<FactorContribution>,
    pub total_score_bps: i128,
    pub generated_at: u64,
}

/// Contribution of the credit score: centered at 550, scaled to at most
/// 4000 basis points either way.
pub open spec fn credit_contribution(credit_score: u32) -> int {
    tdiv((credit_score - 550) * 4000, 450)
}

/// Contribution of the vouch quality: centered at 10_000, scaled by 35%.
pub open spec fn quality_contribution(vouch_quality_bps: u32) -> int {
    tdiv((vouch_quality_bps - 10_000) * 3500, 10_000)
}

/// A contribution as `(name, contribution, weight)`.
pub open spec fn contribution_view(c: FactorContribution) -> (Seq<char>, int, u32) {
    (c.factor_name@, c.contribution_bps as int, c.weight_bps)
}

/// Attribute the outcome of loan `loan_id` (whose status is `status`, if
/// stored) to its recorded factors at `now`. With factors, the credit score
/// (weight 40%) and vouch quality (35%) contribute by the model; sector
/// (15%) and region (10%) are listed with no contribution of their own.
/// Without factors there are no contributions.
pub fn analyze_loan_performance_attribution(
    loan_id: u64,
    status: Option<LoanStatus>,
    factors: &Option<PerformanceFactors>,
    now: u64,
) -> (a: Attribution)
    ensures
        a.loan_id == loan_id,
        a.outcome == (match status {
            Some(s) => outcome_of(s),
            None => LoanOutcome::Pending,
        }),
        a.generated_at == now,
        factors is None ==> a.contributions@.len() == 0 && a.total_score_bps == 0,
        factors is Some ==> {
            let f = factors->0;
            &&& a.contributions@.map_values(|c: FactorContribution| contribution_view(c)) == seq![
                ("credit_score"@, credit_contribution(f.credit_score), 4000u32),
                ("vouch_quality"@, quality_contribution(f.vouch_quality_bps), 3500u32),
                (f.sector@, 0int, 1500u32),
                (f.region@, 0int, 1000u32),
            ]
            &&& a.total_score_bps == credit_contribution(f.credit_score) + quality_contribution(f.vouch_quality_bps)
        },
{
    let outcome = match status {
        Some(s) => loan_outcome(s),
        None => LoanOutcome::Pending,
    };
    let mut contributions: Vec<FactorContribution> = Vec::new();
    let mut total: i128 = 0;
    match factors {
        Some(f) => {
            let credit_delta = f.credit_score as i128 - 550;
            proof {
                lemma_tdiv_bounds(credit_delta * 4000, 450);
            }
            let credit = credit_delta * 4000 / 450;
            contributions.push(
                FactorContribution { factor_name: String::from_str("credit_score"), contribution_bps: credit, weight_bps: 4000 },
            );
            total = total + credit;
            let quality_delta = f.vouch_quality_bps as i128 - 10_000;
            proof {
                lemma_tdiv_bounds(quality_delta * 3500, 10_000);
            }
            let quality = quality_delta * 3500 / 10_000;
            contributions.push(
                FactorContribution {
                    factor_name: String::from_str("vouch_quality"),
                    contribution_bps: quality,
                    weight_bps: 3500,
                },
            );
            total = total + quality;
            contributions.push(FactorContribution { factor_name: f.sector.clone(), contribution_bps: 0, weight_bps: 1500 });
            contributions.push(FactorContribution { factor_name: f.region.clone(), contribution_bps: 0, weight_bps: 1000 });
            assert(contributions@.map_values(|c: FactorContribution| contribution_view(c)) =~= seq![
                ("credit_score"@, credit_contribution(f.credit_score), 4000u32),
                ("vouch_quality"@, quality_contribution(f.vouch_quality_bps), 3500u32),
                (f.sector@, 0int, 1500u32),
                (f.region@, 0int, 1000u32),
            ]);
        },
        None => {},
    }
    Attribution { loan_id, outcome, contributions, total_score_bps: total, generated_at: now }
}

/// The running record of one factor over resolved loans.
pub struct FactorAggregate {
    pub factor_name: String,
    pub loans_observed: u32,
    pub successes: u32,
    pub failures: u32,
    pub cumulative_contribution_bps: i128,
}

/// Fold one resolved loan's contribution into its factor's aggregate
/// (`existing`, or a fresh one). Pending outcomes are not folded in:
/// `None` then, and nothing is stored.
pub fn update_factor_aggregate(existing: Option<FactorAggregate>, c: &FactorContribution, outcome: LoanOutcome) -> (r:
    Option<FactorAggregate>)
    requires
        outcome != LoanOutcome::Pending && existing is Some ==> {
            let a = existing->0;
            &&& a.loans_observed < u32::MAX
            &&& i128::MIN <= a.cumulative_contribution_bps + c.contribution_bps <= i128::MAX
            &&& outcome == LoanOutcome::Success ==> a.successes < u32::MAX
            &&& outcome == LoanOutcome::Failure ==> a.failures < u32::MAX
        },
    ensures
        outcome == LoanOutcome::Pending ==> r is None,
        outcome != LoanOutcome::Pending ==> r is Some && {
            let n = r->0;
            let (name, observed, successes, failures, cumulative) = match existing {
                Some(a) => (a.factor_name@, a.loans_observed as int, a.successes as int, a.failures as int, a.cumulative_contribution_bps as int),
                None => (c.factor_name@, 0int, 0int, 0int, 0int),
            };
            &&& n.factor_name@ == name
            &&& n.loans_observed == observed + 1
            &&& n.cumulative_contribution_bps == cumulative + c.contribution_bps
            &&& n.successes == successes + (if outcome == LoanOutcome::Success { 1int } else { 0int })
            &&& n.failures == failures + (if outcome == LoanOutcome::Failure { 1int } else { 0int })
        },
{
    if outcome == LoanOutcome::Pending {
        return None;
    }
    let mut agg = match existing {
        Some(a) => a,
        None => FactorAggregate {
            factor_name: c.factor_name.clone(),
            loans_observed: 0,
            successes: 0,
            failures: 0,
            cumulative_contribution_bps: 0,
        },
    };
    agg.loans_observed = agg.loans_observed + 1;
    agg.cumulative_contribution_bps = agg.cumulative_contribution_bps + c.contribution_bps;
    match outcome {
        LoanOutcome::Success => {
            agg.successes = agg.successes + 1;
        },
        LoanOutcome::Failure => {
            agg.failures = agg.failures + 1;
        },
        LoanOutcome::Pending => {},
    }
    Some(agg)
}

/// A report over the stored factor aggregates.
pub struct FactorPerformanceReport {
    pub factors: Vec<FactorAggregate>,
    pub total_loans_analyzed: u32,
    pub generated_at: u64,
}

/// The aggregates that are stored, in order.
pub open spec fn present(stored: Seq<Option<FactorAggregate>>) -> Seq<FactorAggregate>
    decreases stored.len(),
{
    if stored.len() == 0 {
        Seq::empty()
    } else {
        let rest = present(stored.drop_last());
        match stored.last() {
            Some(a) => rest.push(a),
            None => rest,
        }
    }
}

/// The most loans any of the aggregates observed.
pub open spec fn max_observed(aggs: Seq<FactorAggregate>) -> u32
    decreases aggs.len(),
{
    if aggs.len() == 0 {
        0
    } else {
        let m = max_observed(aggs.drop_last());
        if aggs.last().loans_observed > m { aggs.last().loans_observed } else { m }
    }
}

fn copy_aggregate(a: &FactorAggregate) -> (r: FactorAggregate)
    ensures
        r == *a,
{
    FactorAggregate {
        factor_name: a.factor_name.clone(),
        loans_observed: a.loans_observed,
        successes: a.successes,
        failures: a.failures,
        cumulative_contribution_bps: a.cumulative_contribution_bps,
    }
}

/// The report over the aggregates stored under the factor names
/// `credit_score`, `vouch_quality`, `sector` and `region` (`stored`, in
/// that order): those present, and the most loans any of them observed.
pub fn generate_factor_performance_report(stored: &Vec<Option<FactorAggregate>>, now: u64) -> (r: FactorPerformanceReport)
    ensures
        r.factors@ == present(stored@),
        r.total_loans_analyzed == max_observed(present(stored@)),
        r.generated_at == now,
{
    let mut factors: Vec<FactorAggregate> = Vec::new();
    let mut total: u32 = 0;
    let mut i: usize = 0;
    while i < stored.len()
        invariant
            i <= stored@.len(),
            factors@ == present(stored@.subrange(0, i as int)),
            total == max_observed(factors@),
        decreases stored@.len() - i,
    {
        assert(stored@.subrange(0, i + 1).drop_last() == stored@.subrange(0, i as int));
        assert(stored@.subrange(0, i + 1).last() == stored@[i as int]);
        match &stored[i] {
            Some(a) => {
                let ghost before = factors@;
                let c = copy_aggregate(a);
                if c.loans_observed > total {
                    total = c.loans_observed;
                }
                factors.push(c);
                assert(factors@.drop_last() == before);
            },
            None => {},
        }
        i = i + 1;
    }
    assert(stored@.subrange(0, stored@.len() as int) == stored@);
    FactorPerformanceReport { factors, total_loans_analyzed: total, generated_at: now }
}

/// An aggregate that informs a prediction for a loan in `sector` and
/// `region`: it observed loans and is the credit-score, vouch-quality,
/// sector or region factor.
pub open spec fn relevant(a: FactorAggregate, sector: Seq<char>, region: Seq<char>) -> bool {
    a.loans_observed != 0 && (a.factor_name@ == "credit_score"@ || a.factor_name@ == "vouch_quality"@
        || a.factor_name@ == sector || a.factor_name@ == region)
}

/// Success rate of a factor, in basis points.
pub open spec fn success_rate_bps(a: FactorAggregate) -> int {
    (a.successes * 10_000) / (a.loans_observed as int)
}

/// Sum over the relevant aggregates of success rate times observations.
pub open spec fn evidence_sum(aggs: Seq<FactorAggregate>, sector: Seq<char>, region: Seq<char>) -> int
    decreases aggs.len(),
{
    if aggs.len() == 0 {
        0
    } else {
        evidence_sum(aggs.drop_last(), sector, region) + if relevant(aggs.last(), sector, region) {
            success_rate_bps(aggs.last()) * aggs.last().loans_observed
        } else {
            0
        }
    }
}

/// Sum over the relevant aggregates of their observations.
pub open spec fn evidence_weight(aggs: Seq<FactorAggregate>, sector: Seq<char>, region: Seq<char>) -> int
    decreases aggs.len(),
{
    if aggs.len() == 0 {
        0
    } else {
        evidence_weight(aggs.drop_last(), sector, region) + if relevant(aggs.last(), sector, region) {
            aggs.last().loans_observed as int
        } else {
            0
        }
    }
}

/// The predicted success probability, in basis points: a 50% prior of
/// weight 100, each relevant factor's success rate weighted by its
/// observations, the credit score (scaled to basis points) with weight 50
/// and the vouch quality (capped at 20_000) with weight 30, averaged and
/// capped at 10_000.
pub open spec fn predicted_bps(
    aggs: Seq<FactorAggregate>,
    credit_score: u32,
    vouch_quality_bps: u32,
    sector: Seq<char>,
    region: Seq<char>,
) -> int {
    let quality = if vouch_quality_bps < 20_000 { vouch_quality_bps as int } else { 20_000 };
    let sum = 500_000 + evidence_sum(aggs, sector, region) + ((credit_score * 10_000) / 1000) * 50 + quality * 30;
    let weight = 180 + evidence_weight(aggs, sector, region);
    let p = sum / weight;
    if p > 10_000 { 10_000 } else { p }
}

proof fn lemma_rate_times_observed(successes: u32, observed: u32)
    requires
        observed > 0,
    ensures
        0 <= ((successes * 10_000) / (observed as int)) * observed <= successes * 10_000,
{
    let a = successes * 10_000;
    let o = observed as int;
    assert(0 <= (a / o) * o <= a) by (nonlinear_arith)
        requires a >= 0, o > 0;
}

/// Predict the success probability, in basis points, of a loan with the
/// given credit score, vouch quality, sector and region from the stored
/// factor aggregates (`stored`, as for the report).
pub fn predict_loan_success_probability_bps(
    stored: &Vec<Option<FactorAggregate>>,
    credit_score: u32,
    vouch_quality_bps: u32,
    sector: &String,
    region: &String,
) -> (p: u32)
    ensures
        p == predicted_bps(present(stored@), credit_score, vouch_quality_bps, sector@, region@),
{
    let report = generate_factor_performance_report(stored, 0);
    let aggs = &report.factors;
    let credit_name = String::from_str("credit_score");
    let quality_name = String::from_str("vouch_quality");
    let mut sum: i128 = 0;
    let mut weight: i128 = 0;
    let mut i: usize = 0;
    while i < aggs.len()
        invariant
            i <= aggs@.len(),
            credit_name@ == "credit_score"@,
            quality_name@ == "vouch_quality"@,
            sum == evidence_sum(aggs@.subrange(0, i as int), sector@, region@),
            weight == evidence_weight(aggs@.subrange(0, i as int), sector@, region@),
            0 <= sum <= i * 42_949_672_950_000,
            0 <= weight <= i * 4_294_967_295,
        decreases aggs@.len() - i,
    {
        assert(aggs@.subrange(0, i + 1).drop_last() == aggs@.subrange(0, i as int));
        assert(aggs@.subrange(0, i + 1).last() == aggs@[i as int]);
        let a = &aggs[i];
        if a.loans_observed != 0 && (a.factor_name == credit_name || a.factor_name == quality_name || a.factor_name
            == *sector || a.factor_name == *region) {
            proof {
                lemma_rate_times_observed(a.successes, a.loans_observed);
            }
            let rate = (a.successes as i128) * 10_000 / (a.loans_observed as i128);
            sum = sum + rate * (a.loans_observed as i128);
            weight = weight + a.loans_observed as i128;
        }
        i = i + 1;
    }
    assert(aggs@.subrange(0, aggs@.len() as int) == aggs@);
    let quality: i128 = if (vouch_quality_bps as i128) < 20_000 { vouch_quality_bps as i128 } else { 20_000 };
    let total = 500_000 + sum + ((credit_score as i128) * 10_000 / 1000) * 50 + quality * 30;
    let w = 180 + weight;
    let p = total / w;
    if p > 10_000 { 10_000 } else { p as u32 }
}

} // verus!
