use crate::window::{capped_push, push_capped};
use std::collections::VecDeque;
use vstd::prelude::*;
use vstd::relations::{sorted_by, total_ordering};

verus! {

/// Latencies of one order's path, in microseconds.
#[derive(Clone, Copy, Debug, Default, PartialEq, Eq, Structural)]
pub struct LatencyBreakdown {
    pub decision_latency_us: u64,
    pub send_latency_us: u64,
    pub ack_latency_us: u64,
    pub first_fill_latency_us: u64,
    pub full_fill_latency_us: u64,
}

/// The 50th, 90th and 99th percentile of a window of latencies.
#[derive(Clone, Copy, Debug, Default, PartialEq, Eq, Structural)]
pub struct LatencyPercentiles {
    pub p50: u64,
    pub p90: u64,
    pub p99: u64,
}

/// Percentiles of every latency stage.
#[derive(Clone, Copy, Debug, Default, PartialEq, Eq, Structural)]
pub struct LatencyDistributionSnapshot {
    pub decision_latency: LatencyPercentiles,
    pub send_latency: LatencyPercentiles,
    pub ack_latency: LatencyPercentiles,
    pub first_fill_latency: LatencyPercentiles,
    pub full_fill_latency: LatencyPercentiles,
}

/// The smallest window a distribution keeps.
pub const MIN_LATENCY_WINDOW: usize = 32;

/// Rolling windows of the latest latencies of each stage.
#[derive(Debug)]
pub struct LatencyDistributions {
    capacity: usize,
    decision: VecDeque<u64>,
    send: VecDeque<u64>,
    ack: VecDeque<u64>,
    first_fill: VecDeque<u64>,
    full_fill: VecDeque<u64>,
}

/// The order in which latencies are ranked.
pub open spec fn latency_leq() -> spec_fn(u64, u64) -> bool {
    |a: u64, b: u64| a <= b
}

/// The latencies of `samples` in ascending order.
pub open spec fn sorted_latencies(samples: Seq<u64>) -> Seq<u64> {
    samples.sort_by(latency_leq())
}

/// Position of the percentile `hundredths / 100` among `n > 0` ranked samples:
/// `(n - 1) * hundredths / 100`, rounded half up, and never past the last sample.
pub open spec fn percentile_index(n: nat, hundredths: nat) -> int {
    let idx = ((n - 1) * hundredths + 50) / 100;
    if idx < n - 1 {
        idx
    } else {
        n - 1
    }
}

/// The percentile `hundredths / 100` of an ascending sequence; 0 when it is empty.
pub open spec fn percentile_of(sorted: Seq<u64>, hundredths: nat) -> u64 {
    if sorted.len() == 0 {
        0
    } else {
        sorted[percentile_index(sorted.len(), hundredths)]
    }
}

/// The percentiles of a window of latencies; all zero for an empty window.
pub open spec fn summary_of(samples: Seq<u64>) -> LatencyPercentiles {
    if samples.len() == 0 {
        LatencyPercentiles { p50: 0, p90: 0, p99: 0 }
    } else {
        LatencyPercentiles {
            p50: percentile_of(sorted_latencies(samples), 50),
            p90: percentile_of(sorted_latencies(samples), 90),
            p99: percentile_of(sorted_latencies(samples), 99),
        }
    }
}

proof fn lemma_latency_leq_total()
    ensures
        total_ordering(latency_leq()),
{
}

/// Sorting a window of latencies keeps its values and puts them in ascending order.
pub proof fn lemma_sorted_latencies(samples: Seq<u64>)
    ensures
        sorted_latencies(samples).to_multiset() =~= samples.to_multiset(),
        sorted_latencies(samples).len() == samples.len(),
        sorted_by(sorted_latencies(samples), latency_leq()),
{
    lemma_latency_leq_total();
    samples.lemma_sort_by_ensures(latency_leq());
    samples.to_multiset_ensures();
    sorted_latencies(samples).to_multiset_ensures();
}

proof fn lemma_percentile_index_monotone(n: nat, low: nat, high: nat)
    requires
        n > 0,
        low <= high,
    ensures
        0 <= percentile_index(n, low) <= percentile_index(n, high) < n,
{
    let a = (n - 1) as int;
    assert(a * low <= a * high) by (nonlinear_arith)
        requires
            a >= 0,
            low <= high,
    ;
    assert(a * low >= 0) by (nonlinear_arith)
        requires
            a >= 0,
            low >= 0,
    ;
    vstd::arithmetic::div_mod::lemma_div_is_ordered(a * low + 50, a * high + 50, 100);
}

/// In any non-empty window the three percentiles are recorded latencies, and
/// they never decrease from p50 to p90 to p99.
pub proof fn lemma_percentiles_ordered(samples: Seq<u64>)
    requires
        samples.len() > 0,
    ensures
        summary_of(samples).p50 <= summary_of(samples).p90,
        summary_of(samples).p90 <= summary_of(samples).p99,
        samples.contains(summary_of(samples).p50),
        samples.contains(summary_of(samples).p90),
        samples.contains(summary_of(samples).p99),
{
    let sorted = sorted_latencies(samples);
    lemma_sorted_latencies(samples);
    lemma_latency_leq_total();
    samples.lemma_sort_by_ensures(latency_leq());
    let n = samples.len();
    lemma_percentile_index_monotone(n, 50, 90);
    lemma_percentile_index_monotone(n, 90, 99);
    let i50 = percentile_index(n, 50);
    let i90 = percentile_index(n, 90);
    let i99 = percentile_index(n, 99);
    if i50 < i90 {
        assert(latency_leq()(sorted[i50], sorted[i90]));
    }
    if i90 < i99 {
        assert(latency_leq()(sorted[i90], sorted[i99]));
    }
    assert(sorted.contains(sorted[i50]));
    assert(sorted.contains(sorted[i90]));
    assert(sorted.contains(sorted[i99]));
}

/// Returns the values of `values` in ascending order.
fn sort_latencies(values: &VecDeque<u64>) -> (sorted: Vec<u64>)
    ensures
        sorted@ == sorted_latencies(values@),
{
    let mut sorted: Vec<u64> = Vec::new();
    let n = values.len();
    let mut i: usize = 0;
    assert(sorted@ =~= values@.take(0));
    while i < n
        invariant
            n == values@.len(),
            i <= n,
            sorted_by(sorted@, latency_leq()),
            sorted@.to_multiset() =~= values@.take(i as int).to_multiset(),
        decreases n - i,
    {
        let x = values[i];
        let mut pos: usize = 0;
        while pos < sorted.len() && sorted[pos] <= x
            invariant
                pos <= sorted@.len(),
                forall|k: int| 0 <= k < pos ==> sorted@[k] <= x,
            decreases sorted@.len() - pos,
        {
            pos = pos + 1;
        }
        let ghost before = sorted@;
        sorted.insert(pos, x);
        proof {
            before.insert_ensures(pos as int, x);
            vstd::seq_lib::to_multiset_insert(before, pos as int, x);
            assert(values@.take(i + 1) =~= values@.take(i as int).push(x));
            vstd::seq_lib::to_multiset_build(values@.take(i as int), x);
            assert forall|a: int, b: int| 0 <= a < b < sorted@.len() implies #[trigger] latency_leq()(
                sorted@[a],
                sorted@[b],
            ) by {
                if b < pos {
                    assert(latency_leq()(before[a], before[b]));
                } else if b == pos {
                    assert(before[a] <= x);
                } else if a < pos {
                    assert(before[a] <= x);
                    if b - 1 < before.len() {
                        assert(x < before[pos as int] || pos == before.len());
                        if pos < before.len() {
                            assert(latency_leq()(before[pos as int], before[b - 1]) || pos == b - 1);
                        }
                    }
                } else if a == pos {
                    assert(x < before[pos as int]);
                    assert(latency_leq()(before[pos as int], before[b - 1]) || pos == b - 1);
                } else {
                    assert(latency_leq()(before[a - 1], before[b - 1]));
                }
            }
        }
        i = i + 1;
    }
    proof {
        assert(values@.take(n as int) =~= values@);
        lemma_latency_leq_total();
        lemma_sorted_latencies(values@);
        vstd::seq_lib::lemma_sorted_unique(sorted@, sorted_latencies(values@), latency_leq());
    }
    sorted
}

/// The latency at percentile `hundredths / 100` of an ascending window.
fn percentile(sorted: &Vec<u64>, hundredths: u64) -> (value: u64)
    requires
        hundredths <= 100,
    ensures
        value == percentile_of(sorted@, hundredths as nat),
{
    if sorted.len() == 0 {
        return 0;
    }
    let n = sorted.len();
    let last: usize = n - 1;
    proof {
        assert((last as int) * (hundredths as int) <= (last as int) * 100) by (nonlinear_arith)
            requires
                hundredths <= 100,
                last >= 0,
        ;
    }
    let scaled: u128 = (last as u128) * (hundredths as u128) + 50;
    let rounded: u128 = scaled / 100;
    assert(rounded <= last as u128);
    let idx: usize = rounded as usize;
    let pick: usize = if idx < last {
        idx
    } else {
        last
    };
    sorted[pick]
}

/// The p50, p90 and p99 of a window of latencies; all zero when it is empty.
fn summarize(values: &VecDeque<u64>) -> (summary: LatencyPercentiles)
    ensures
        summary == summary_of(values@),
{
    if values.len() == 0 {
        return LatencyPercentiles { p50: 0, p90: 0, p99: 0 };
    }
    let sorted = sort_latencies(values);
    proof {
        lemma_sorted_latencies(values@);
    }
    LatencyPercentiles {
        p50: percentile(&sorted, 50),
        p90: percentile(&sorted, 90),
        p99: percentile(&sorted, 99),
    }
}

/// `window` with `value` appended by `push_capped`; a window within its capacity
/// stays within it.
fn bounded_push(window: VecDeque<u64>, value: u64, capacity: usize) -> (pushed: VecDeque<u64>)
    requires
        capacity > 0,
        window@.len() <= capacity,
    ensures
        pushed@ == capped_push(window@, value, capacity as nat),
        pushed@.len() <= capacity,
{
    let ghost before = window@;
    let mut window = window;
    push_capped(&mut window, value, capacity);
    proof {
        crate::window::lemma_capped_push_keeps_latest(before, value, capacity as nat);
    }
    window
}

impl Default for LatencyDistributions {
    /// Empty windows of 512 latencies each.
    fn default() -> (distributions: Self)
        ensures
            distributions.windows_within_capacity(),
            distributions.window_capacity() == 512,
            distributions.decision_samples() == Seq::<u64>::empty(),
            distributions.send_samples() == Seq::<u64>::empty(),
            distributions.ack_samples() == Seq::<u64>::empty(),
            distributions.first_fill_samples() == Seq::<u64>::empty(),
            distributions.full_fill_samples() == Seq::<u64>::empty(),
    {
        LatencyDistributions::new(512)
    }
}

impl LatencyDistributions {
    #[verifier::type_invariant]
    closed spec fn windows_fit(self) -> bool {
        &&& self.capacity >= MIN_LATENCY_WINDOW
        &&& self.decision@.len() <= self.capacity
        &&& self.send@.len() <= self.capacity
        &&& self.ack@.len() <= self.capacity
        &&& self.first_fill@.len() <= self.capacity
        &&& self.full_fill@.len() <= self.capacity
    }

    /// The most values each window keeps.
    pub closed spec fn window_capacity(self) -> nat {
        self.capacity as nat
    }

    /// The window of decision latencies, oldest first.
    pub closed spec fn decision_samples(self) -> Seq<u64> {
        self.decision@
    }

    /// The window of send latencies, oldest first.
    pub closed spec fn send_samples(self) -> Seq<u64> {
        self.send@
    }

    /// The window of acknowledgement latencies, oldest first.
    pub closed spec fn ack_samples(self) -> Seq<u64> {
        self.ack@
    }

    /// The window of first-fill latencies, oldest first.
    pub closed spec fn first_fill_samples(self) -> Seq<u64> {
        self.first_fill@
    }

    /// The window of full-fill latencies, oldest first.
    pub closed spec fn full_fill_samples(self) -> Seq<u64> {
        self.full_fill@
    }

    /// Every window holds at most the capacity, which is at least the minimum window.
    pub open spec fn windows_within_capacity(self) -> bool {
        &&& self.window_capacity() >= MIN_LATENCY_WINDOW
        &&& self.decision_samples().len() <= self.window_capacity()
        &&& self.send_samples().len() <= self.window_capacity()
        &&& self.ack_samples().len() <= self.window_capacity()
        &&& self.first_fill_samples().len() <= self.window_capacity()
        &&& self.full_fill_samples().len() <= self.window_capacity()
    }

    /// Empty windows that keep at most `capacity` values each, but never fewer than 32.
    pub fn new(capacity: usize) -> (distributions: Self)
        ensures
            distributions.windows_within_capacity(),
            distributions.window_capacity() == if capacity < MIN_LATENCY_WINDOW {
                MIN_LATENCY_WINDOW as nat
            } else {
                capacity as nat
            },
            distributions.decision_samples() == Seq::<u64>::empty(),
            distributions.send_samples() == Seq::<u64>::empty(),
            distributions.ack_samples() == Seq::<u64>::empty(),
            distributions.first_fill_samples() == Seq::<u64>::empty(),
            distributions.full_fill_samples() == Seq::<u64>::empty(),
    {
        let capacity = if capacity < MIN_LATENCY_WINDOW {
            MIN_LATENCY_WINDOW
        } else {
            capacity
        };
        LatencyDistributions {
            capacity,
            decision: VecDeque::with_capacity(capacity),
            send: VecDeque::with_capacity(capacity),
            ack: VecDeque::with_capacity(capacity),
            first_fill: VecDeque::with_capacity(capacity),
            full_fill: VecDeque::with_capacity(capacity),
        }
    }

    /// Adds each stage of `breakdown` to its window, dropping the oldest value of
    /// a full window.
    pub fn record(&mut self, breakdown: LatencyBreakdown)
        ensures
            final(self).windows_within_capacity(),
            final(self).window_capacity() == old(self).window_capacity(),
            final(self).decision_samples() == capped_push(
                old(self).decision_samples(),
                breakdown.decision_latency_us,
                old(self).window_capacity(),
            ),
            final(self).send_samples() == capped_push(
                old(self).send_samples(),
                breakdown.send_latency_us,
                old(self).window_capacity(),
            ),
            final(self).ack_samples() == capped_push(
                old(self).ack_samples(),
                breakdown.ack_latency_us,
                old(self).window_capacity(),
            ),
            final(self).first_fill_samples() == capped_push(
                old(self).first_fill_samples(),
                breakdown.first_fill_latency_us,
                old(self).window_capacity(),
            ),
            final(self).full_fill_samples() == capped_push(
                old(self).full_fill_samples(),
                breakdown.full_fill_latency_us,
                old(self).window_capacity(),
            ),
    {
        proof {
            use_type_invariant(&*self);
        }
        let capacity = self.capacity;
        let mut window = VecDeque::new();
        std::mem::swap(&mut window, &mut self.decision);
        self.decision = bounded_push(window, breakdown.decision_latency_us, capacity);
        let mut window = VecDeque::new();
        std::mem::swap(&mut window, &mut self.send);
        self.send = bounded_push(window, breakdown.send_latency_us, capacity);
        let mut window = VecDeque::new();
        std::mem::swap(&mut window, &mut self.ack);
        self.ack = bounded_push(window, breakdown.ack_latency_us, capacity);
        let mut window = VecDeque::new();
        std::mem::swap(&mut window, &mut self.first_fill);
        self.first_fill = bounded_push(window, breakdown.first_fill_latency_us, capacity);
        let mut window = VecDeque::new();
        std::mem::swap(&mut window, &mut self.full_fill);
        self.full_fill = bounded_push(window, breakdown.full_fill_latency_us, capacity);
        proof {
            use_type_invariant(&*self);
        }
    }

    /// The percentiles of every window.
    pub fn snapshot(&self) -> (snapshot: LatencyDistributionSnapshot)
        ensures
            snapshot.decision_latency == summary_of(self.decision_samples()),
            snapshot.send_latency == summary_of(self.send_samples()),
            snapshot.ack_latency == summary_of(self.ack_samples()),
            snapshot.first_fill_latency == summary_of(self.first_fill_samples()),
            snapshot.full_fill_latency == summary_of(self.full_fill_samples()),
    {
        LatencyDistributionSnapshot {
            decision_latency: summarize(&self.decision),
            send_latency: summarize(&self.send),
            ack_latency: summarize(&self.ack),
            first_fill_latency: summarize(&self.first_fill),
            full_fill_latency: summarize(&self.full_fill),
        }
    }
}

} // verus!
