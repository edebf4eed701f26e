//! The benchmark loop: a fixed number of forward passes over one reused
//! input, each bracketed by two readings of the host's monotonic clock, and
//! the aggregation of the recorded latencies into mean and estimated
//! frequency.

use crate::forward::{forward, ShapeError};
use crate::model::Model;
use crate::tensor::{t3_dims, Tensor3};
use vstd::arithmetic::div_mod::{lemma_div_is_ordered, lemma_div_multiples_vanish};
use vstd::arithmetic::mul::lemma_mul_inequality;
use vstd::prelude::*;

verus! {

/// The sum of the recorded elapsed times, in milliseconds.
pub open spec fn sum_ms(s: Seq<u64>) -> int
    decreases s.len(),
{
    if s.len() == 0 {
        0
    } else {
        sum_ms(s.drop_last()) + s.last()
    }
}

/// The sum of elapsed times is nonnegative and at most one maximal value per
/// entry.
pub proof fn lemma_sum_ms_bound(s: Seq<u64>)
    ensures
        0 <= sum_ms(s) <= s.len() * (u64::MAX as int),
    decreases s.len(),
{
    if s.len() > 0 {
        lemma_sum_ms_bound(s.drop_last());
        lemma_mul_inequality(s.len() - 1, s.len() as int, u64::MAX as int);
    }
}

/// Appending one elapsed time adds it to the sum.
pub proof fn lemma_sum_ms_push(s: Seq<u64>, v: u64)
    ensures
        sum_ms(s.push(v)) == sum_ms(s) + v,
{
    assert(s.push(v).drop_last() =~= s);
    assert(s.push(v).last() == v);
}

/// What the benchmark loop reports: the per-iteration elapsed times, their
/// count, their sum, the mean latency under floor division, and the
/// estimated operation frequency — left undefined rather than divided by
/// zero when the mean rounds down to nothing.
pub struct BenchmarkReport {
    pub iterations: usize,
    pub elapsed_ms: Vec<u64>,
    pub total_ms: u128,
    pub mean_ms: u64,
    pub frequency_hz: Option<u64>,
}

impl BenchmarkReport {
    /// The report aggregates exactly the elapsed times `elapsed`:
    /// `total_ms` is their sum, `mean_ms` their floor-divided mean, and
    /// `frequency_hz` is `1000 / mean_ms` under floor division when the mean
    /// is positive, undefined otherwise.
    pub open spec fn describes(self, elapsed: Seq<u64>) -> bool {
        &&& self.elapsed_ms@ == elapsed
        &&& self.iterations == elapsed.len()
        &&& elapsed.len() >= 1
        &&& self.total_ms == sum_ms(elapsed)
        &&& self.mean_ms == sum_ms(elapsed) / (elapsed.len() as int)
        &&& self.frequency_hz == (if self.mean_ms > 0 {
            Some((1000 as int / self.mean_ms as int) as u64)
        } else {
            None::<u64>
        })
    }
}

/// Aggregates recorded elapsed times: their sum, the floor-divided mean, and
/// the estimated frequency `1000 / mean` — undefined when the mean is zero,
/// never a division by zero.
pub fn summarize(elapsed: Vec<u64>) -> (r: BenchmarkReport)
    requires
        elapsed@.len() >= 1,
    ensures
        r.describes(elapsed@),
{
    let ghost full = elapsed@;
    let n = elapsed.len();
    let mut total: u128 = 0;
    let mut idx: usize = 0;
    while idx < n
        invariant
            n == full.len(),
            elapsed@ == full,
            idx <= n,
            total == sum_ms(full.take(idx as int)),
        decreases n - idx,
    {
        let e = elapsed[idx];
        proof {
            lemma_sum_ms_bound(full.take(idx as int));
            lemma_mul_inequality(idx as int, u64::MAX as int, u64::MAX as int);
            lemma_sum_ms_push(full.take(idx as int), e);
            assert(full.take(idx as int + 1) =~= full.take(idx as int).push(e));
        }
        total = total + (e as u128);
        idx = idx + 1;
    }
    proof {
        assert(full.take(n as int) =~= full);
        lemma_sum_ms_bound(full);
        lemma_mul_inequality(n as int, u64::MAX as int, u64::MAX as int);
        lemma_div_is_ordered(total as int, (n as int) * (u64::MAX as int), n as int);
        lemma_div_multiples_vanish(u64::MAX as int, n as int);
        assert((n as int) * (u64::MAX as int) == (u64::MAX as int) * (n as int)) by (nonlinear_arith);
    }
    let mean128 = total / (n as u128);
    let mean: u64 = mean128 as u64;
    let frequency: Option<u64> = if mean > 0 {
        Some(1000 / mean)
    } else {
        None
    };
    BenchmarkReport { iterations: n, elapsed_ms: elapsed, total_ms: total, mean_ms: mean, frequency_hz: frequency }
}

/// Relies on `std::time::Instant`: a reading of the host's monotonic clock.
#[verifier::external_type_specification]
#[verifier::external_body]
pub struct ExInstant(std::time::Instant);

/// Relies on `std::time::Instant::now`: it reads the monotonic clock; the
/// reading depends on when the call happens, so nothing is promised of it.
#[verifier::external_body]
fn instant_now() -> (r: std::time::Instant) {
    std::time::Instant::now()
}

/// Relies on `Instant::saturating_duration_since` and `Duration::as_millis`:
/// the whole milliseconds from `earlier` to `later`, zero when `later` is
/// the earlier reading; the value depends on the two readings alone, but the
/// readings themselves depend on the clock, so nothing is promised of it.
#[verifier::external_body]
fn millis_between(earlier: &std::time::Instant, later: &std::time::Instant) -> (r: u64) {
    later.saturating_duration_since(*earlier).as_millis() as u64
}

/// Drives `iterations` forward passes over the one reused input, reading the
/// clock immediately before and after each pass — nothing else lies inside
/// the measured span — and aggregates the elapsed times. The model is never
/// mutated. Succeeds exactly when the input flattens to the model's input
/// size; a mismatch aborts the run with a recoverable error and leaves the
/// model reusable.
pub fn run(model: &Model, input: &Tensor3, iterations: usize) -> (r: Result<
    BenchmarkReport,
    ShapeError,
>)
    requires
        model.wf(),
        iterations >= 1,
    ensures
        match r {
            Ok(rep) => {
                &&& t3_dims(*input)[1] * t3_dims(*input)[2] == model.config.input_size
                &&& rep.iterations == iterations
                &&& rep.describes(rep.elapsed_ms@)
            },
            Err(e) => t3_dims(*input)[1] * t3_dims(*input)[2] != model.config.input_size,
        },
{
    let mut elapsed: Vec<u64> = Vec::new();
    let mut i: usize = 0;
    while i < iterations
        invariant
            model.wf(),
            iterations >= 1,
            i <= iterations,
            elapsed@.len() == i,
            i > 0 ==> t3_dims(*input)[1] * t3_dims(*input)[2] == model.config.input_size,
        decreases iterations - i,
    {
        let t0 = instant_now();
        let out = forward(model, input);
        let t1 = instant_now();
        if let Err(e) = out {
            return Err(e);
        }
        let ms = millis_between(&t0, &t1);
        elapsed.push(ms);
        i = i + 1;
    }
    Ok(summarize(elapsed))
}

} // verus!
