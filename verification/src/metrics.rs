//! API metrics collection and Prometheus export.
//!
//! Per-endpoint request counting, latency distribution tracking and error
//! counting, with an exporter in the Prometheus text exposition format.
//! Latency buckets are kept as whole nanosecond bounds, so bucket placement
//! is exact integer comparison.
use std::time::Duration;
use vstd::prelude::*;
use vstd::string::*;
use crate::text::{decimal, push_decimal, push_seconds, seconds_text};

verus! {

/// Number of latency histogram buckets.
pub const BUCKET_COUNT: usize = 11;

/// Upper bound of latency bucket `i`, in nanoseconds
/// (0.005, 0.01, 0.025, 0.05, 0.1, 0.25, 0.5, 1, 2.5, 5 and 10 seconds).
pub open spec fn bucket_bound(i: int) -> nat {
    if i == 0 { 5_000_000 } else if i == 1 { 10_000_000 } else if i == 2 { 25_000_000 }
    else if i == 3 { 50_000_000 } else if i == 4 { 100_000_000 } else if i == 5 { 250_000_000 }
    else if i == 6 { 500_000_000 } else if i == 7 { 1_000_000_000 } else if i == 8 { 2_500_000_000 }
    else if i == 9 { 5_000_000_000 } else { 10_000_000_000 }
}

/// The label text of bucket `i`, as Prometheus shows its bound in seconds.
pub open spec fn bucket_label(i: int) -> Seq<char> {
    if i == 0 { seq!['0', '.', '0', '0', '5'] } else if i == 1 { seq!['0', '.', '0', '1'] }
    else if i == 2 { seq!['0', '.', '0', '2', '5'] } else if i == 3 { seq!['0', '.', '0', '5'] }
    else if i == 4 { seq!['0', '.', '1'] } else if i == 5 { seq!['0', '.', '2', '5'] }
    else if i == 6 { seq!['0', '.', '5'] } else if i == 7 { seq!['1'] }
    else if i == 8 { seq!['2', '.', '5'] } else if i == 9 { seq!['5'] } else { seq!['1', '0'] }
}

/// The first bucket whose bound is at least `nanos`; `BUCKET_COUNT` when the
/// latency exceeds every bound (it is then counted only in `+Inf`).
pub open spec fn bucket_of(nanos: nat) -> int
    decreases 11nat,
{
    first_bucket_from(nanos, 0)
}

/// The first bucket at or after `i` whose bound is at least `nanos`.
pub open spec fn first_bucket_from(nanos: nat, i: int) -> int
    decreases 11 - i,
{
    if i >= 11 || i < 0 {
        11
    } else if nanos <= bucket_bound(i) {
        i
    } else {
        first_bucket_from(nanos, i + 1)
    }
}

/// What `Duration::as_nanos` returns for `d`.
pub uninterp spec fn duration_nanos(d: Duration) -> u128;

/// Calls `Duration::as_nanos`: the whole length of `d` in nanoseconds.
#[verifier::external_body]
fn latency_nanos(d: Duration) -> (n: u128)
    ensures
        n == duration_nanos(d),
{
    d.as_nanos()
}

fn bucket_bound_exec(i: usize) -> (b: u128)
    requires
        i < BUCKET_COUNT,
    ensures
        b as nat == bucket_bound(i as int),
{
    if i == 0 { 5_000_000 } else if i == 1 { 10_000_000 } else if i == 2 { 25_000_000 }
    else if i == 3 { 50_000_000 } else if i == 4 { 100_000_000 } else if i == 5 { 250_000_000 }
    else if i == 6 { 500_000_000 } else if i == 7 { 1_000_000_000 } else if i == 8 { 2_500_000_000 }
    else if i == 9 { 5_000_000_000 } else { 10_000_000_000 }
}

fn bucket_label_exec(i: usize) -> (s: &'static str)
    requires
        i < BUCKET_COUNT,
    ensures
        s@ == bucket_label(i as int),
{
    proof {
        reveal_strlit("0.005"); reveal_strlit("0.01"); reveal_strlit("0.025"); reveal_strlit("0.05");
        reveal_strlit("0.1"); reveal_strlit("0.25"); reveal_strlit("0.5"); reveal_strlit("1");
        reveal_strlit("2.5"); reveal_strlit("5"); reveal_strlit("10");
    }
    if i == 0 { "0.005" } else if i == 1 { "0.01" } else if i == 2 { "0.025" } else if i == 3 { "0.05" }
    else if i == 4 { "0.1" } else if i == 5 { "0.25" } else if i == 6 { "0.5" } else if i == 7 { "1" }
    else if i == 8 { "2.5" } else if i == 9 { "5" } else { "10" }
}

/// Counters of an endpoint: requests, errors, per-bucket counts, latency
/// sum in microseconds, and number of latency observations.
pub type Counters = (u64, u64, Seq<u64>, u64, u64);

/// The counters of an endpoint that has seen nothing.
pub open spec fn zero_counters() -> Counters {
    (0, 0, Seq::new(BUCKET_COUNT as nat, |i: int| 0u64), 0, 0)
}

/// The counters after observing one request of `nanos` nanoseconds.
pub open spec fn observe_counters(c: Counters, nanos: u128, is_error: bool) -> Counters {
    let b = bucket_of(nanos as nat);
    (
        c.0.wrapping_add(1),
        if is_error { c.1.wrapping_add(1) } else { c.1 },
        if b < BUCKET_COUNT { c.2.update(b, (c.2[b] + 1) as u64) } else { c.2 },
        c.3.wrapping_add((nanos / 1000) as u64),
        c.4.wrapping_add(1),
    )
}

/// The bucket that a latency of `nanos` nanoseconds falls into.
fn bucket_index(nanos: u128) -> (b: usize)
    ensures
        b as int == bucket_of(nanos as nat),
        b <= BUCKET_COUNT,
{
    let ghost n = nanos as nat;
    let mut i: usize = 0;
    while i < BUCKET_COUNT
        invariant
            i <= BUCKET_COUNT,
            n == nanos as nat,
            first_bucket_from(n, 0) == first_bucket_from(n, i as int),
        decreases BUCKET_COUNT - i,
    {
        if nanos <= bucket_bound_exec(i) {
            return i;
        }
        i = i + 1;
    }
    i
}

/// Per-endpoint metrics: request counts, latency histogram, and error counts.
/// The request, error and latency counters wrap around at `u64::MAX` like the
/// atomic counters they model.
pub struct EndpointMetrics {
    pub requests: u64,
    pub errors: u64,
    /// Number of observations that fell into each bucket (not cumulative).
    pub buckets: Vec<u64>,
    pub latency_sum_micros: u64,
    pub latency_count: u64,
}

impl EndpointMetrics {
    pub open spec fn well_formed(&self) -> bool {
        self.buckets@.len() == BUCKET_COUNT
    }

    /// Whether one more observation fits in every bucket counter.
    pub open spec fn has_room(&self) -> bool {
        forall|i: int| 0 <= i < self.buckets@.len() ==> self.buckets@[i] < u64::MAX
    }

    pub open spec fn counters(self) -> Counters {
        (self.requests, self.errors, self.buckets@, self.latency_sum_micros, self.latency_count)
    }

    /// An endpoint with no observations.
    pub fn new() -> (m: Self)
        ensures
            m.well_formed(),
            m.counters() == zero_counters(),
    {
        let mut buckets: Vec<u64> = Vec::new();
        let mut i: usize = 0;
        while i < BUCKET_COUNT
            invariant
                i <= BUCKET_COUNT,
                buckets@.len() == i,
                forall|j: int| 0 <= j < i ==> buckets@[j] == 0,
            decreases BUCKET_COUNT - i,
        {
            buckets.push(0);
            i = i + 1;
        }
        assert(buckets@ == Seq::new(BUCKET_COUNT as nat, |i: int| 0u64));
        EndpointMetrics { requests: 0, errors: 0, buckets, latency_sum_micros: 0, latency_count: 0 }
    }

    /// Records one request of the given latency.
    pub fn observe(&mut self, latency: Duration, is_error: bool)
        requires
            old(self).well_formed(),
            old(self).has_room(),
        ensures
            final(self).well_formed(),
            final(self).counters() == observe_counters(old(self).counters(), duration_nanos(latency), is_error),
    {
        self.requests = self.requests.wrapping_add(1);
        if is_error {
            self.errors = self.errors.wrapping_add(1);
        }
        let nanos = latency_nanos(latency);
        #[verifier::truncate]
        let micros = (nanos / 1000) as u64;
        self.latency_sum_micros = self.latency_sum_micros.wrapping_add(micros);
        self.latency_count = self.latency_count.wrapping_add(1);

        let b = bucket_index(nanos);
        if b < BUCKET_COUNT {
            let v = self.buckets[b];
            self.buckets.set(b, v + 1);
        }
    }
}

/// Registry of per-endpoint API metrics, in the order endpoints were first seen.
pub struct ApiMetrics {
    pub endpoints: Vec<(String, EndpointMetrics)>,
}

/// Position of `name` among `entries`, if present.
pub open spec fn position_of(entries: Seq<(String, EndpointMetrics)>, name: Seq<char>) -> Option<int> {
    if exists|i: int| 0 <= i < entries.len() && #[trigger] entries[i].0@ == name {
        Some(choose|i: int| 0 <= i < entries.len() && #[trigger] entries[i].0@ == name)
    } else {
        None
    }
}

impl ApiMetrics {
    /// Every entry is well formed and no endpoint name occurs twice.
    pub open spec fn well_formed(&self) -> bool {
        &&& forall|i: int| 0 <= i < self.endpoints@.len() ==> (#[trigger] self.endpoints@[i]).1.well_formed()
        &&& forall|i: int, j: int| 0 <= i < j < self.endpoints@.len()
            ==> self.endpoints@[i].0@ != self.endpoints@[j].0@
    }

    /// Whether `endpoint` can take one more observation in every bucket.
    pub open spec fn can_record(&self, endpoint: Seq<char>) -> bool {
        forall|i: int| 0 <= i < self.endpoints@.len() && #[trigger] self.endpoints@[i].0@ == endpoint
            ==> self.endpoints@[i].1.has_room()
    }

    /// Create an empty metrics registry.
    pub fn new() -> (m: Self)
        ensures
            m.well_formed(),
            m.endpoints@.len() == 0,
    {
        ApiMetrics { endpoints: Vec::new() }
    }

    /// Record a completed request for the given endpoint: its counters
    /// observe the latency, and an endpoint seen for the first time is
    /// appended with fresh counters first.
    pub fn record(&mut self, endpoint: &str, latency: Duration, is_error: bool)
        requires
            old(self).well_formed(),
            old(self).can_record(endpoint@),
        ensures
            final(self).well_formed(),
            match position_of(old(self).endpoints@, endpoint@) {
                Some(i) => {
                    &&& final(self).endpoints@.len() == old(self).endpoints@.len()
                    &&& final(self).endpoints@[i].0@ == endpoint@
                    &&& final(self).endpoints@[i].1.counters()
                        == observe_counters(old(self).endpoints@[i].1.counters(), duration_nanos(latency), is_error)
                    &&& forall|j: int| 0 <= j < old(self).endpoints@.len() && j != i
                        ==> #[trigger] final(self).endpoints@[j] == old(self).endpoints@[j]
                },
                None => {
                    &&& final(self).endpoints@.len() == old(self).endpoints@.len() + 1
                    &&& forall|j: int| 0 <= j < old(self).endpoints@.len()
                        ==> #[trigger] final(self).endpoints@[j] == old(self).endpoints@[j]
                    &&& final(self).endpoints@.last().0@ == endpoint@
                    &&& final(self).endpoints@.last().1.counters()
                        == observe_counters(zero_counters(), duration_nanos(latency), is_error)
                },
            },
    {
        let key = String::from_str(endpoint);
        let mut i: usize = 0;
        let n = self.endpoints.len();
        while i < n
            invariant
                n == self.endpoints@.len(),
                i <= n,
                self.endpoints == old(self).endpoints,
                old(self).well_formed(),
                old(self).can_record(endpoint@),
                key@ == endpoint@,
                forall|j: int| 0 <= j < i ==> #[trigger] self.endpoints@[j].0@ != endpoint@,
            decreases n - i,
        {
            if self.endpoints[i].0 == key {
                let ghost before = self.endpoints@;
                assert(position_of(before, endpoint@) == Some(i as int)) by {
                    let k = choose|k: int| 0 <= k < before.len() && #[trigger] before[k].0@ == endpoint@;
                    if k != i as int {
                        if k < i { } else { assert(before[i as int].0@ != before[k].0@); }
                    }
                }
                assert(before[i as int].1.well_formed());
                assert(before[i as int].1.has_room());
                let (name, mut m) = self.endpoints.remove(i);
                m.observe(latency, is_error);
                self.endpoints.insert(i, (name, m));
                assert forall|a: int, b: int| 0 <= a < b < self.endpoints@.len()
                    implies self.endpoints@[a].0@ != self.endpoints@[b].0@ by {
                    assert(self.endpoints@[a].0 == before[a].0);
                    assert(self.endpoints@[b].0 == before[b].0);
                }
                assert forall|j: int| 0 <= j < before.len() && j != i
                    implies #[trigger] self.endpoints@[j] == before[j] by {}
                return;
            }
            i = i + 1;
        }
        assert(position_of(old(self).endpoints@, endpoint@) is None);
        let mut m = EndpointMetrics::new();
        m.observe(latency, is_error);
        self.endpoints.push((key, m));
    }
}


/// One character of a label value, escaped per the text exposition format.
pub open spec fn escape_char(c: char) -> Seq<char> {
    if c == '\\' { seq!['\\', '\\'] } else if c == '"' { seq!['\\', '"'] }
    else if c == '\n' { seq!['\\', 'n'] } else { seq![c] }
}

/// A label value with backslash, double quote and newline escaped.
pub open spec fn escaped(s: Seq<char>) -> Seq<char>
    decreases s.len(),
{
    if s.len() == 0 { Seq::empty() } else { escaped(s.drop_last()) + escape_char(s.last()) }
}

/// Escape a Prometheus label value per the text exposition format.
pub fn escape_label(value: &str) -> (r: String)
    ensures
        r@ == escaped(value@),
{
    let mut out = String::new();
    let n = value.unicode_len();
    let mut i: usize = 0;
    while i < n
        invariant
            n == value@.len(),
            i <= n,
            out@ == escaped(value@.subrange(0, i as int)),
        decreases n - i,
    {
        let c = value.get_char(i);
        proof {
            reveal_strlit("\\\\"); reveal_strlit("\\\""); reveal_strlit("\\n");
        }
        if c == '\\' {
            out.append("\\\\");
        } else if c == '"' {
            out.append("\\\"");
        } else if c == '\n' {
            out.append("\\n");
        } else {
            out.append(value.substring_char(i, i + 1));
        }
        assert(value@.subrange(0, i + 1).drop_last() == value@.subrange(0, i as int));
        assert(value@.subrange(0, i + 1).last() == c);
        assert(value@.subrange(i as int, i + 1) == seq![c]);
        i = i + 1;
    }
    assert(value@.subrange(0, n as int) == value@);
    out
}

/// Sum of the first `k` entries of `s`.
pub open spec fn prefix_sum(s: Seq<u64>, k: int) -> nat
    decreases k,
{
    if k <= 0 { 0 } else { prefix_sum(s, k - 1) + s[k - 1] as nat }
}

proof fn lemma_prefix_sum_monotone(s: Seq<u64>, j: int, k: int)
    requires
        0 <= j <= k,
    ensures
        prefix_sum(s, j) <= prefix_sum(s, k),
    decreases k - j,
{
    if j < k {
        lemma_prefix_sum_monotone(s, j, k - 1);
    }
}

pub open spec fn requests_line(e: (String, EndpointMetrics)) -> Seq<char> {
    "api_requests_total{endpoint=\""@ + escaped(e.0@) + "\"} "@ + decimal(e.1.requests as nat) + "\n"@
}

pub open spec fn errors_line(e: (String, EndpointMetrics)) -> Seq<char> {
    "api_errors_total{endpoint=\""@ + escaped(e.0@) + "\"} "@ + decimal(e.1.errors as nat) + "\n"@
}

/// The first `k` cumulative bucket lines of an endpoint's histogram.
pub open spec fn bucket_lines(label: Seq<char>, buckets: Seq<u64>, k: int) -> Seq<char>
    decreases k,
{
    if k <= 0 {
        Seq::empty()
    } else {
        bucket_lines(label, buckets, k - 1) + "api_request_duration_seconds_bucket{endpoint=\""@ + label
            + "\",le=\""@ + bucket_label(k - 1) + "\"} "@ + decimal(prefix_sum(buckets, k)) + "\n"@
    }
}

pub open spec fn histogram_block(e: (String, EndpointMetrics)) -> Seq<char> {
    let label = escaped(e.0@);
    bucket_lines(label, e.1.buckets@, BUCKET_COUNT as int)
        + "api_request_duration_seconds_bucket{endpoint=\""@ + label + "\",le=\"+Inf\"} "@
        + decimal(e.1.latency_count as nat) + "\n"@
        + "api_request_duration_seconds_sum{endpoint=\""@ + label + "\"} "@
        + seconds_text(e.1.latency_sum_micros as nat) + "\n"@
        + "api_request_duration_seconds_count{endpoint=\""@ + label + "\"} "@
        + decimal(e.1.latency_count as nat) + "\n"@
}

pub open spec fn all_requests_lines(es: Seq<(String, EndpointMetrics)>) -> Seq<char>
    decreases es.len(),
{
    if es.len() == 0 { Seq::empty() } else { all_requests_lines(es.drop_last()) + requests_line(es.last()) }
}

pub open spec fn all_errors_lines(es: Seq<(String, EndpointMetrics)>) -> Seq<char>
    decreases es.len(),
{
    if es.len() == 0 { Seq::empty() } else { all_errors_lines(es.drop_last()) + errors_line(es.last()) }
}

pub open spec fn all_histograms(es: Seq<(String, EndpointMetrics)>) -> Seq<char>
    decreases es.len(),
{
    if es.len() == 0 { Seq::empty() } else { all_histograms(es.drop_last()) + histogram_block(es.last()) }
}

/// The whole exposition text for the given endpoints.
pub open spec fn exposition(es: Seq<(String, EndpointMetrics)>) -> Seq<char> {
    "# HELP api_requests_total Total number of API requests per endpoint.\n"@
        + "# TYPE api_requests_total counter\n"@ + all_requests_lines(es)
        + "# HELP api_errors_total Total number of API errors per endpoint.\n"@
        + "# TYPE api_errors_total counter\n"@ + all_errors_lines(es)
        + "# HELP api_request_duration_seconds API request latency per endpoint.\n"@
        + "# TYPE api_request_duration_seconds histogram\n"@ + all_histograms(es)
}

fn push_histogram(out: &mut String, e: &(String, EndpointMetrics))
    requires
        e.1.well_formed(),
        prefix_sum(e.1.buckets@, BUCKET_COUNT as int) <= u64::MAX,
    ensures
        final(out)@ == old(out)@ + histogram_block(*e),
{
    let label = escape_label(e.0.as_str());
    let m = &e.1;
    let ghost start = out@;
    let mut cumulative: u64 = 0;
    let mut i: usize = 0;
    while i < BUCKET_COUNT
        invariant
            i <= BUCKET_COUNT,
            m.buckets@.len() == BUCKET_COUNT,
            prefix_sum(m.buckets@, BUCKET_COUNT as int) <= u64::MAX,
            cumulative as nat == prefix_sum(m.buckets@, i as int),
            out@ == start + bucket_lines(label@, m.buckets@, i as int),
        decreases BUCKET_COUNT - i,
    {
        proof { lemma_prefix_sum_monotone(m.buckets@, i as int + 1, BUCKET_COUNT as int); }
        cumulative = cumulative + m.buckets[i];
        out.append("api_request_duration_seconds_bucket{endpoint=\"");
        out.append(label.as_str());
        out.append("\",le=\"");
        out.append(bucket_label_exec(i));
        out.append("\"} ");
        push_decimal(out, cumulative);
        out.append("\n");
        i = i + 1;
    }
    out.append("api_request_duration_seconds_bucket{endpoint=\"");
    out.append(label.as_str());
    out.append("\",le=\"+Inf\"} ");
    push_decimal(out, m.latency_count);
    out.append("\n");
    out.append("api_request_duration_seconds_sum{endpoint=\"");
    out.append(label.as_str());
    out.append("\"} ");
    push_seconds(out, m.latency_sum_micros);
    out.append("\n");
    out.append("api_request_duration_seconds_count{endpoint=\"");
    out.append(label.as_str());
    out.append("\"} ");
    push_decimal(out, m.latency_count);
    out.append("\n");
}

impl ApiMetrics {
    /// Whether every endpoint's bucket counts add up within `u64`, so the
    /// cumulative histogram can be rendered.
    pub open spec fn exportable(&self) -> bool {
        forall|i: int| 0 <= i < self.endpoints@.len()
            ==> prefix_sum(#[trigger] self.endpoints@[i].1.buckets@, BUCKET_COUNT as int) <= u64::MAX
    }

    /// Render all collected metrics in Prometheus text exposition format.
    pub fn export_prometheus(&self) -> (r: String)
        requires
            self.well_formed(),
            self.exportable(),
        ensures
            r@ == exposition(self.endpoints@),
    {
        let es = &self.endpoints;
        let n = es.len();
        let mut out = String::new();
        out.append("# HELP api_requests_total Total number of API requests per endpoint.\n");
        out.append("# TYPE api_requests_total counter\n");
        let mut i: usize = 0;
        let ghost p1 = out@;
        while i < n
            invariant
                n == es@.len(),
                i <= n,
                out@ == p1 + all_requests_lines(es@.subrange(0, i as int)),
            decreases n - i,
        {
            out.append("api_requests_total{endpoint=\"");
            let label = escape_label(es[i].0.as_str());
            out.append(label.as_str());
            out.append("\"} ");
            push_decimal(&mut out, es[i].1.requests);
            out.append("\n");
            assert(es@.subrange(0, i + 1).drop_last() == es@.subrange(0, i as int));
            i = i + 1;
        }
        assert(es@.subrange(0, n as int) == es@);
        out.append("# HELP api_errors_total Total number of API errors per endpoint.\n");
        out.append("# TYPE api_errors_total counter\n");
        let ghost p2 = out@;
        i = 0;
        while i < n
            invariant
                n == es@.len(),
                i <= n,
                out@ == p2 + all_errors_lines(es@.subrange(0, i as int)),
            decreases n - i,
        {
            out.append("api_errors_total{endpoint=\"");
            let label = escape_label(es[i].0.as_str());
            out.append(label.as_str());
            out.append("\"} ");
            push_decimal(&mut out, es[i].1.errors);
            out.append("\n");
            assert(es@.subrange(0, i + 1).drop_last() == es@.subrange(0, i as int));
            i = i + 1;
        }
        out.append("# HELP api_request_duration_seconds API request latency per endpoint.\n");
        out.append("# TYPE api_request_duration_seconds histogram\n");
        let ghost p3 = out@;
        i = 0;
        while i < n
            invariant
                n == es@.len(),
                i <= n,
                self.well_formed(),
                self.exportable(),
                es == &self.endpoints,
                out@ == p3 + all_histograms(es@.subrange(0, i as int)),
            decreases n - i,
        {
            assert(es@[i as int].1.well_formed());
            assert(prefix_sum(es@[i as int].1.buckets@, BUCKET_COUNT as int) <= u64::MAX);
            push_histogram(&mut out, &es[i]);
            assert(es@.subrange(0, i + 1).drop_last() == es@.subrange(0, i as int));
            i = i + 1;
        }
        out
    }
}

/// Counters that a run of observations without wrap-around leaves: as many
/// observed latencies as requests, no more errors than requests, and no more
/// latencies in the buckets than observed.
pub open spec fn consistent(c: Counters) -> bool {
    &&& c.2.len() == BUCKET_COUNT
    &&& c.0 == c.4
    &&& c.1 <= c.0
    &&& prefix_sum(c.2, BUCKET_COUNT as int) <= c.4
}

proof fn lemma_prefix_sum_update(s: Seq<u64>, b: int, v: u64, k: int)
    requires
        0 <= b < s.len(),
        0 <= k <= s.len(),
    ensures
        prefix_sum(s.update(b, v), k) == prefix_sum(s, k) + (if b < k { v - s[b] } else { 0 }),
    decreases k,
{
    if k > 0 {
        lemma_prefix_sum_update(s, b, v, k - 1);
    }
}

/// Exported histograms are cumulative: a bucket with a higher bound never
/// shows fewer latencies than one with a lower bound.
pub proof fn lemma_buckets_never_decrease(buckets: Seq<u64>, j: int, k: int)
    requires
        0 <= j <= k,
    ensures
        prefix_sum(buckets, j) <= prefix_sum(buckets, k),
{
    lemma_prefix_sum_monotone(buckets, j, k);
}

/// Fresh counters are consistent, and observing a request keeps them so
/// while the request counter does not wrap: the exported `+Inf` and
/// `_count` lines (both the number of observed latencies) then equal the
/// requests total, which is at least the errors total, and every bucket
/// line is at most `+Inf`.
pub proof fn lemma_observe_keeps_consistent(c: Counters, nanos: u128, is_error: bool)
    requires
        consistent(c),
        c.0 < u64::MAX,
    ensures
        consistent(zero_counters()),
        consistent(observe_counters(c, nanos, is_error)),
        observe_counters(c, nanos, is_error).0 == c.0 + 1,
{
    let z = zero_counters();
    assert(prefix_sum(z.2, BUCKET_COUNT as int) == 0) by {
        assert forall|k: int| 0 <= k <= BUCKET_COUNT implies prefix_sum(z.2, k) == 0 by {
            lemma_zero_prefix(z.2, k);
        }
    }
    let b = bucket_of(nanos as nat);
    if b < BUCKET_COUNT {
        lemma_bucket_of_range(nanos as nat, 0);
        lemma_prefix_sum_monotone(c.2, b + 1, BUCKET_COUNT as int);
        lemma_prefix_sum_monotone(c.2, b, b + 1);
        assert(c.2[b] <= prefix_sum(c.2, b + 1));
        lemma_prefix_sum_update(c.2, b, (c.2[b] + 1) as u64, BUCKET_COUNT as int);
    }
}

proof fn lemma_zero_prefix(s: Seq<u64>, k: int)
    requires
        0 <= k <= s.len(),
        forall|i: int| 0 <= i < s.len() ==> s[i] == 0,
    ensures
        prefix_sum(s, k) == 0,
    decreases k,
{
    if k > 0 {
        lemma_zero_prefix(s, k - 1);
    }
}

proof fn lemma_bucket_of_range(nanos: nat, i: int)
    requires
        0 <= i <= 11,
    ensures
        i <= first_bucket_from(nanos, i) <= 11,
    decreases 11 - i,
{
    if i < 11 {
        lemma_bucket_of_range(nanos, i + 1);
    }
}

} // verus!
