//! Quorum-slice cost optimization: per-slice cost metrics kept from a
//! bounded cost history, and the savings and recommendations derived from
//! them.
use vstd::prelude::*;
use crate::arith::{lemma_tdiv_bounds, sat_add, saturating_add_i128, tdiv};

verus! {

/// Cost metrics of a slice.
pub struct SliceCostMetrics {
    pub slice_id: String,
    pub current_cost: i128,
    pub average_cost: i128,
    pub min_cost: i128,
    pub max_cost: i128,
    /// -1 decreasing, 0 stable, 1 increasing.
    pub trend_direction: i32,
    /// Change from the previous cost, in percent.
    pub cost_change_percentage: i32,
}

/// A suggested saving.
pub struct OptimizationSuggestion {
    pub category: String,
    pub description: String,
    pub estimated_savings: i128,
    /// 1 high, 2 medium, 3 low.
    pub priority: u32,
    /// 1 easy, 2 moderate, 3 complex.
    pub difficulty: u32,
}

/// The suggestions for a slice and their total savings.
pub struct OptimizationSuggestions {
    pub slice_id: String,
    pub suggestions: Vec<OptimizationSuggestion>,
    pub total_estimated_savings: i128,
}

/// A cost measured at a time.
#[derive(Clone, Copy, Debug, PartialEq, Eq, Structural)]
pub struct CostHistoryEntry {
    pub timestamp: u64,
    pub cost: i128,
}

/// Most entries a cost history keeps.
pub const MAX_COST_HISTORY: usize = 100;

/// The metrics of a slice: those stored, else all zero.
pub fn calculate_slice_cost(stored: Option<SliceCostMetrics>, slice_id: String) -> (m: SliceCostMetrics)
    ensures
        stored is Some ==> m == stored->0,
        stored is None ==> m.slice_id@ == slice_id@ && m.current_cost == 0 && m.average_cost == 0 && m.min_cost == 0
            && m.max_cost == 0 && m.trend_direction == 0 && m.cost_change_percentage == 0,
{
    match stored {
        Some(m) => m,
        None => SliceCostMetrics {
            slice_id,
            current_cost: 0,
            average_cost: 0,
            min_cost: 0,
            max_cost: 0,
            trend_direction: 0,
            cost_change_percentage: 0,
        },
    }
}

/// A suggestion as `(category, description, savings, priority, difficulty)`.
pub open spec fn suggestion_view(s: OptimizationSuggestion) -> (Seq<char>, Seq<char>, i128, u32, u32) {
    (s.category@, s.description@, s.estimated_savings, s.priority, s.difficulty)
}

/// Current cost more than 20% above average.
pub open spec fn cost_high(m: SliceCostMetrics) -> bool {
    m.current_cost > tdiv(m.average_cost * 120, 100)
}

/// Cost rising by more than 10%.
pub open spec fn cost_rising(m: SliceCostMetrics) -> bool {
    m.trend_direction > 0 && m.cost_change_percentage > 10
}

/// The suggestions for `m`, in order: fewer validators (a tenth of the
/// cost) when the cost is high, leaner communication (a fifteenth) when it
/// is rising, then always consolidation (a twentieth) and a configuration
/// review (a twenty-fifth).
pub open spec fn suggestions_for(m: SliceCostMetrics) -> Seq<(Seq<char>, Seq<char>, i128, u32, u32)> {
    let c = m.current_cost as int;
    let first = if cost_high(m) {
        seq![
            (
                "validator_reduction"@,
                "Reduce the number of validators in the slice to lower operational costs"@,
                tdiv(c, 10) as i128,
                1u32,
                2u32,
            ),
        ]
    } else {
        Seq::empty()
    };
    let second = if cost_rising(m) {
        seq![
            (
                "communication_efficiency"@,
                "Optimize validator communication patterns to reduce message overhead"@,
                tdiv(c, 15) as i128,
                2u32,
                3u32,
            ),
        ]
    } else {
        Seq::empty()
    };
    first + second + seq![
        (
            "consolidation"@,
            "Consolidate redundant validator instances to reduce overhead"@,
            tdiv(c, 20) as i128,
            2u32,
            1u32,
        ),
        (
            "configuration_review"@,
            "Review and optimize slice configuration parameters for efficiency"@,
            tdiv(c, 25) as i128,
            3u32,
            1u32,
        ),
    ]
}

/// Total savings of the suggestions for `m`.
pub open spec fn savings_total(m: SliceCostMetrics) -> int {
    let c = m.current_cost as int;
    (if cost_high(m) { tdiv(c, 10) } else { 0 }) + (if cost_rising(m) { tdiv(c, 15) } else { 0 }) + tdiv(c, 20) + tdiv(
        c,
        25,
    )
}

/// Suggest cost savings for a slice with metrics `m`.
pub fn optimize_slice_cost(m: &SliceCostMetrics) -> (r: OptimizationSuggestions)
    requires
        i128::MIN <= m.average_cost * 120 <= i128::MAX,
    ensures
        r.slice_id@ == m.slice_id@,
        r.suggestions@.map_values(|s: OptimizationSuggestion| suggestion_view(s)) == suggestions_for(*m),
        r.total_estimated_savings == savings_total(*m),
{
    let c = m.current_cost;
    proof {
        lemma_tdiv_bounds(m.average_cost * 120, 100);
        lemma_tdiv_bounds(c as int, 10);
        lemma_tdiv_bounds(c as int, 15);
        lemma_tdiv_bounds(c as int, 20);
        lemma_tdiv_bounds(c as int, 25);
    }
    let mut suggestions: Vec<OptimizationSuggestion> = Vec::new();
    let mut total: i128 = 0;
    let ghost mut expected: Seq<(Seq<char>, Seq<char>, i128, u32, u32)> = Seq::empty();
    if c > m.average_cost * 120 / 100 {
        let savings = c / 10;
        suggestions.push(
            OptimizationSuggestion {
                category: String::from_str("validator_reduction"),
                description: String::from_str("Reduce the number of validators in the slice to lower operational costs"),
                estimated_savings: savings,
                priority: 1,
                difficulty: 2,
            },
        );
        total = total + savings;
        proof {
            expected = expected.push(
                (
                    "validator_reduction"@,
                    "Reduce the number of validators in the slice to lower operational costs"@,
                    savings,
                    1u32,
                    2u32,
                ),
            );
        }
    }
    if m.trend_direction > 0 && m.cost_change_percentage > 10 {
        let savings = c / 15;
        suggestions.push(
            OptimizationSuggestion {
                category: String::from_str("communication_efficiency"),
                description: String::from_str("Optimize validator communication patterns to reduce message overhead"),
                estimated_savings: savings,
                priority: 2,
                difficulty: 3,
            },
        );
        total = total + savings;
        proof {
            expected = expected.push(
                (
                    "communication_efficiency"@,
                    "Optimize validator communication patterns to reduce message overhead"@,
                    savings,
                    2u32,
                    3u32,
                ),
            );
        }
    }
    let savings = c / 20;
    suggestions.push(
        OptimizationSuggestion {
            category: String::from_str("consolidation"),
            description: String::from_str("Consolidate redundant validator instances to reduce overhead"),
            estimated_savings: savings,
            priority: 2,
            difficulty: 1,
        },
    );
    total = total + savings;
    let savings4 = c / 25;
    suggestions.push(
        OptimizationSuggestion {
            category: String::from_str("configuration_review"),
            description: String::from_str("Review and optimize slice configuration parameters for efficiency"),
            estimated_savings: savings4,
            priority: 3,
            difficulty: 1,
        },
    );
    total = total + savings4;
    assert(suggestions@.map_values(|s: OptimizationSuggestion| suggestion_view(s)) =~= suggestions_for(*m));
    OptimizationSuggestions { slice_id: m.slice_id.clone(), suggestions, total_estimated_savings: total }
}

/// The history with `entry` appended, the oldest dropped past 100.
pub open spec fn appended(history: Seq<CostHistoryEntry>, entry: CostHistoryEntry) -> Seq<CostHistoryEntry> {
    if history.len() + 1 > 100 { history.push(entry).drop_first() } else { history.push(entry) }
}

/// Saturating sum of the costs.
pub open spec fn cost_sum(h: Seq<CostHistoryEntry>) -> int
    decreases h.len(),
{
    if h.len() == 0 { 0 } else { sat_add(cost_sum(h.drop_last()), h.last().cost as int) }
}

/// Least cost of a non-empty history.
pub open spec fn min_cost(h: Seq<CostHistoryEntry>, start: i128) -> i128
    decreases h.len(),
{
    if h.len() == 0 {
        start
    } else {
        let m = min_cost(h.drop_last(), start);
        if h.last().cost < m { h.last().cost } else { m }
    }
}

/// Greatest cost of a history, starting from `start`.
pub open spec fn max_cost(h: Seq<CostHistoryEntry>, start: i128) -> i128
    decreases h.len(),
{
    if h.len() == 0 {
        start
    } else {
        let m = max_cost(h.drop_last(), start);
        if h.last().cost > m { h.last().cost } else { m }
    }
}

/// The metrics after recording `new_cost`, computed over the new history
/// `h` (which ends with it).
pub open spec fn trend_metrics(h: Seq<CostHistoryEntry>, new_cost: i128) -> (i32, i128, i32, i128, i128) {
    let prev = h[h.len() - 2].cost;
    let trend: i32 = if h.len() >= 2 {
        if new_cost > prev { 1i32 } else if new_cost < prev { -1i32 } else { 0i32 }
    } else {
        0
    };
    let average = tdiv(cost_sum(h), h.len() as int) as i128;
    let change: i32 = if h.len() >= 2 && prev != 0 { tdiv((new_cost - prev) * 100, prev as int) as i32 } else { 0 };
    (trend, average, change, min_cost(h, new_cost), max_cost(h, new_cost))
}

/// Record a cost measured at `now` for a slice whose history (at most 100
/// entries) is `history`: the history keeps its last 100 entries, and the
/// metrics give the trend against the previous cost, the (saturating)
/// average, the percentage change, and the least and greatest cost.
pub fn track_cost_trend(history: &mut Vec<CostHistoryEntry>, slice_id: String, new_cost: i128, now: u64) -> (m:
    SliceCostMetrics)
    requires
        old(history)@.len() <= 100,
        ({
            let h = appended(old(history)@, CostHistoryEntry { timestamp: now, cost: new_cost });
            h.len() >= 2 ==> i128::MIN <= (new_cost - h[h.len() - 2].cost) * 100 <= i128::MAX
        }),
    ensures
        final(history)@ == appended(old(history)@, CostHistoryEntry { timestamp: now, cost: new_cost }),
        ({
            let (trend, average, change, lo, hi) = trend_metrics(final(history)@, new_cost);
            &&& m.slice_id@ == slice_id@
            &&& m.current_cost == new_cost
            &&& m.trend_direction == trend
            &&& m.average_cost == average
            &&& m.cost_change_percentage == change
            &&& m.min_cost == lo
            &&& m.max_cost == hi
        }),
{
    history.push(CostHistoryEntry { timestamp: now, cost: new_cost });
    if history.len() > MAX_COST_HISTORY {
        let ghost before = history@;
        history.remove(0);
        assert(history@ =~= before.drop_first());
    }
    let n = history.len();
    assert(n >= 1);
    let ghost h = history@;
    let mut trend: i32 = 0;
    let mut change: i32 = 0;
    if n >= 2 {
        let prev = history[n - 2].cost;
        trend = if new_cost > prev {
            1
        } else if new_cost < prev {
            -1
        } else {
            0
        };
        if prev != 0 {
            proof {
                lemma_tdiv_bounds((new_cost - prev) * 100, prev as int);
            }
            let wide = (new_cost - prev) * 100 / prev;
            #[verifier::truncate]
            let c = wide as i32;
            change = c;
        }
    }
    let mut sum: i128 = 0;
    let mut lo = new_cost;
    let mut hi = new_cost;
    let mut i: usize = 0;
    while i < n
        invariant
            n == history@.len(),
            h == history@,
            i <= n,
            sum == cost_sum(h.subrange(0, i as int)),
            lo == min_cost(h.subrange(0, i as int), new_cost),
            hi == max_cost(h.subrange(0, i as int), new_cost),
        decreases n - i,
    {
        assert(h.subrange(0, i + 1).drop_last() == h.subrange(0, i as int));
        assert(h.subrange(0, i + 1).last() == h[i as int]);
        let c = history[i].cost;
        sum = saturating_add_i128(sum, c);
        if c < lo {
            lo = c;
        }
        if c > hi {
            hi = c;
        }
        i = i + 1;
    }
    assert(h.subrange(0, n as int) == h);
    proof {
        lemma_tdiv_bounds(sum as int, n as int);
    }
    let average = sum / (n as i128);
    SliceCostMetrics {
        slice_id,
        current_cost: new_cost,
        average_cost: average,
        min_cost: lo,
        max_cost: hi,
        trend_direction: trend,
        cost_change_percentage: change,
    }
}

/// The recommendations for metrics `m`, in order: rapid increase (a rising
/// trend above 15%), high variance (a maximum more than 50% above average),
/// costs above average (current more than 20% above average); when none
/// applies, that costs are normal.
pub open spec fn recommendations_for(m: SliceCostMetrics) -> Seq<Seq<char>> {
    let a = if m.trend_direction > 0 && m.cost_change_percentage > 15 {
        seq!["Cost increasing rapidly - consider emergency optimization measures"@]
    } else {
        Seq::empty()
    };
    let b = if m.max_cost > tdiv(m.average_cost * 150, 100) {
        seq!["High cost variance detected - stabilize validator performance"@]
    } else {
        Seq::empty()
    };
    let c = if cost_high(m) {
        seq!["Current costs exceed average - implement targeted optimizations"@]
    } else {
        Seq::empty()
    };
    if a.len() + b.len() + c.len() == 0 {
        seq!["Costs are within normal range - monitor for future changes"@]
    } else {
        a + b + c
    }
}

/// Recommend cost reductions for a slice with metrics `m`.
pub fn recommend_cost_reductions(m: &SliceCostMetrics) -> (r: Vec<String>)
    requires
        i128::MIN <= m.average_cost * 150 <= i128::MAX,
    ensures
        r@.map_values(|s: String| s@) == recommendations_for(*m),
{
    proof {
        lemma_tdiv_bounds(m.average_cost * 150, 100);
        lemma_tdiv_bounds(m.average_cost * 120, 100);
    }
    let mut out: Vec<String> = Vec::new();
    if m.trend_direction > 0 && m.cost_change_percentage > 15 {
        out.push(String::from_str("Cost increasing rapidly - consider emergency optimization measures"));
    }
    if m.max_cost > m.average_cost * 150 / 100 {
        out.push(String::from_str("High cost variance detected - stabilize validator performance"));
    }
    if m.current_cost > m.average_cost * 120 / 100 {
        out.push(String::from_str("Current costs exceed average - implement targeted optimizations"));
    }
    if out.len() == 0 {
        out.push(String::from_str("Costs are within normal range - monitor for future changes"));
    }
    assert(out@.map_values(|s: String| s@) =~= recommendations_for(*m));
    out
}

} // verus!
