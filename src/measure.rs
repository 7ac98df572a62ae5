//! Aggregation of what workers report into one measurement, and the
//! latency and throughput of a measurement.
//!
//! `measurement_of` is what the benchmark binary reports with. `collect`
//! models aggregation from per-worker counts; bustle's runs report only
//! their target total, which the binary passes to `measurement_of`.

use vstd::prelude::*;

verus! {

/// Nanoseconds in one second.
pub const NANOS_PER_SEC: u128 = 1_000_000_000;

/// What one worker reports after the measured phase.
#[derive(Debug, Clone, Copy, PartialEq, Eq, Structural)]
pub struct WorkerReport {
    pub ops: u64,
    pub elapsed_nanos: u64,
}

/// The result of one run. `latency_nanos` is `None` when no operation ran,
/// and `throughput_per_sec` is `None` when no time was spent.
#[derive(Debug, Clone, Copy, PartialEq, Eq, Structural)]
pub struct Measurement {
    pub total_ops: u64,
    pub spent_nanos: u64,
    pub latency_nanos: Option<u64>,
    pub throughput_per_sec: Option<u128>,
}

/// Error of aggregation: the operation counts add up to more than a `u64` holds.
#[derive(Debug, Clone, Copy, PartialEq, Eq, Structural)]
pub enum CollectError {
    TotalOverflow,
}

/// The operation counts of all reports, added up.
pub open spec fn sum_ops(s: Seq<WorkerReport>) -> nat
    decreases s.len(),
{
    if s.len() == 0 {
        0
    } else {
        sum_ops(s.drop_last()) + s.last().ops as nat
    }
}

/// The longest elapsed time of all reports; zero when there are none.
pub open spec fn max_elapsed(s: Seq<WorkerReport>) -> nat
    decreases s.len(),
{
    if s.len() == 0 {
        0
    } else {
        let m = max_elapsed(s.drop_last());
        if s.last().elapsed_nanos > m {
            s.last().elapsed_nanos as nat
        } else {
            m
        }
    }
}

/// Latency is the time spent over the operations, rounded down to a
/// nanosecond; throughput is the operations over the time spent, per
/// second and rounded down. Each is absent where its divisor is zero.
pub open spec fn rates_hold(m: Measurement) -> bool {
    &&& m.latency_nanos == if m.total_ops == 0 {
        None
    } else {
        Some((m.spent_nanos / m.total_ops) as u64)
    }
    &&& m.throughput_per_sec == if m.spent_nanos == 0 {
        None
    } else {
        Some((m.total_ops as int * NANOS_PER_SEC / m.spent_nanos as int) as u128)
    }
}

/// The measurement of a run that issued `total_ops` operations in
/// `spent_nanos`: latency is the time spent over the operations, and
/// throughput the operations over the time spent.
pub fn measurement_of(total_ops: u64, spent_nanos: u64) -> (r: Measurement)
    ensures
        r.total_ops == total_ops,
        r.spent_nanos == spent_nanos,
        rates_hold(r),
{
    let latency_nanos = if total_ops == 0 {
        None
    } else {
        Some(spent_nanos / total_ops)
    };
    let throughput_per_sec = if spent_nanos == 0 {
        None
    } else {
        assert(total_ops * NANOS_PER_SEC <= 0xffff_ffff_ffff_ffff * NANOS_PER_SEC) by (nonlinear_arith)
            requires
                total_ops <= 0xffff_ffff_ffff_ffff,
        ;
        Some(total_ops as u128 * NANOS_PER_SEC / spent_nanos as u128)
    };
    Measurement { total_ops, spent_nanos, latency_nanos, throughput_per_sec }
}

proof fn lemma_sum_ops_prefix_monotone(s: Seq<WorkerReport>, i: int, j: int)
    requires
        0 <= i <= j <= s.len(),
    ensures
        sum_ops(s.subrange(0, i)) <= sum_ops(s.subrange(0, j)),
    decreases j - i,
{
    if i < j {
        lemma_sum_ops_prefix_monotone(s, i, j - 1);
        assert(s.subrange(0, j).drop_last() =~= s.subrange(0, j - 1));
    }
}

/// Aggregates what the workers report: the operations add up, and the
/// slowest worker's time is the time of the run.
pub fn collect(reports: &Vec<WorkerReport>) -> (r: Result<Measurement, CollectError>)
    ensures
        r is Err <==> sum_ops(reports@) > u64::MAX,
        r matches Ok(m) ==> {
            &&& m.total_ops == sum_ops(reports@)
            &&& m.spent_nanos == max_elapsed(reports@)
            &&& rates_hold(m)
        },
{
    let mut total: u64 = 0;
    let mut spent: u64 = 0;
    let mut i: usize = 0;
    while i < reports.len()
        invariant
            i <= reports@.len(),
            total == sum_ops(reports@.subrange(0, i as int)),
            spent == max_elapsed(reports@.subrange(0, i as int)),
        decreases reports@.len() - i,
    {
        let rep = reports[i];
        assert(reports@.subrange(0, i + 1).drop_last() =~= reports@.subrange(0, i as int));
        match total.checked_add(rep.ops) {
            Some(t) => {
                total = t;
            },
            None => {
                proof {
                    lemma_sum_ops_prefix_monotone(reports@, i + 1, reports@.len() as int);
                    assert(reports@.subrange(0, reports@.len() as int) =~= reports@);
                }
                return Err(CollectError::TotalOverflow);
            },
        }
        if rep.elapsed_nanos > spent {
            spent = rep.elapsed_nanos;
        }
        i = i + 1;
    }
    assert(reports@.subrange(0, i as int) =~= reports@);
    Ok(measurement_of(total, spent))
}

} // verus!
