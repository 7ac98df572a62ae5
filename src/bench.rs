use vstd::prelude::*;
use crate::workloads::{create, kind_capacity_log2, kind_mix, kind_prefill_permille, Workload, WorkloadKind, MAX_OPERATIONS_MILLI};

verus! {

/// The options of the `bench` command. The operation multiplier is held in
/// thousandths: `operations_milli == 1000` stands for a multiplier of 1.
#[derive(Debug)]
pub struct Options {
    pub workload: WorkloadKind,
    pub operations_milli: u64,
    pub threads: Option<Vec<u32>>,
    pub collect_csv: bool,
}

/// Why a sweep cannot start.
#[derive(Debug, Clone, Copy, PartialEq, Eq, Structural)]
pub enum BenchError {
    /// CSV collection was asked for; it is not implemented.
    CsvUnsupported,
    /// The operation multiplier is beyond what a run can count.
    TooManyOperations,
    /// A thread count of zero was given.
    ZeroThreads,
}

/// How results are reported.
#[derive(Debug, Clone, Copy, PartialEq, Eq, Structural)]
pub enum ReportStyle {
    /// One line per thread count on the console.
    Console,
}

/// The report style that `options` asks for.
pub fn create_handler(options: &Options) -> (r: Result<ReportStyle, BenchError>)
    ensures
        options.collect_csv ==> r == Err::<ReportStyle, BenchError>(BenchError::CsvUnsupported),
        !options.collect_csv ==> r == Ok::<ReportStyle, BenchError>(ReportStyle::Console),
{
    if options.collect_csv {
        Err(BenchError::CsvUnsupported)
    } else {
        Ok(ReportStyle::Console)
    }
}

/// One past the largest thread count of the default sweep on a machine with
/// `cpus` processors: one and a half times the processors, rounded down.
pub open spec fn default_limit(cpus: nat) -> nat {
    let l = cpus + cpus / 2;
    if l > u32::MAX {
        u32::MAX as nat
    } else {
        l
    }
}

/// The thread counts of the default sweep: `1, 2, ...` below the limit.
pub open spec fn default_thread_counts(cpus: nat) -> Seq<u32> {
    Seq::new((if default_limit(cpus) > 0 { default_limit(cpus) - 1 } else { 0 }) as nat, |i: int| (i + 1) as u32)
}

/// The thread counts to sweep: those given, in the order given, else the
/// default for `cpus` processors, which ascends from 1.
pub fn thread_counts(threads: &Option<Vec<u32>>, cpus: usize) -> (r: Result<Vec<u32>, BenchError>)
    ensures
        match threads {
            Some(v) => {
                &&& r is Err <==> exists|i: int| 0 <= i < v@.len() && v@[i] == 0
                &&& r matches Ok(c) ==> c@ == v@
            },
            None => r matches Ok(c) && c@ == default_thread_counts(cpus as nat),
        },
{
    match threads {
        Some(v) => {
            let mut i: usize = 0;
            while i < v.len()
                invariant
                    threads matches Some(w) && w@ == v@,
                    i <= v@.len(),
                    forall|j: int| 0 <= j < i ==> v@[j] != 0,
                decreases v@.len() - i,
            {
                if v[i] == 0 {
                    assert(v@[i as int] == 0);
                    return Err(BenchError::ZeroThreads);
                }
                i = i + 1;
            }
            Ok(v.clone())
        },
        None => {
            let l: u128 = cpus as u128 + (cpus / 2) as u128;
            let limit: u32 = if l > u32::MAX as u128 {
                u32::MAX
            } else {
                l as u32
            };
            let mut r: Vec<u32> = Vec::new();
            let mut n: u32 = 1;
            while n < limit
                invariant
                    limit == default_limit(cpus as nat),
                    1 <= n,
                    n <= limit || (limit == 0 && n == 1),
                    r@.len() == n - 1,
                    forall|j: int| 0 <= j < r@.len() ==> r@[j] == j + 1,
                decreases limit - n,
            {
                r.push(n);
                n = n + 1;
            }
            let ghost d = default_thread_counts(cpus as nat);
            assert(r@.len() == d.len());
            assert forall|j: int| 0 <= j < r@.len() implies r@[j] == d[j] by {
                assert(d[j] == (j + 1) as u32);
            }
            assert(r@ =~= d);
            Ok(r)
        },
    }
}

/// `w` is the well-formed workload that `options` selects for `count` threads.
pub open spec fn swept(options: &Options, count: u32, w: Workload) -> bool {
    &&& w.wf()
    &&& w.threads == count
    &&& w.mix == kind_mix(options.workload)
    &&& w.capacity_log2 == kind_capacity_log2(options.workload)
    &&& w.prefill_permille == kind_prefill_permille(options.workload)
    &&& w.operations_milli == options.operations_milli
}

/// The workloads of a sweep: one per thread count, in the order given.
pub fn sweep_workloads(options: &Options, counts: &Vec<u32>) -> (r: Result<Vec<Workload>, BenchError>)
    ensures
        options.operations_milli > MAX_OPERATIONS_MILLI ==> r == Err::<Vec<Workload>, BenchError>(
            BenchError::TooManyOperations,
        ),
        options.operations_milli <= MAX_OPERATIONS_MILLI ==> (r is Err <==> exists|i: int|
            0 <= i < counts@.len() && counts@[i] == 0),
        options.operations_milli <= MAX_OPERATIONS_MILLI && r is Err ==> r == Err::<Vec<Workload>, BenchError>(
            BenchError::ZeroThreads,
        ),
        r matches Ok(ws) ==> {
            &&& ws@.len() == counts@.len()
            &&& forall|i: int|
                0 <= i < ws@.len() ==> swept(options, counts@[i], ws@[i])
        },
{
    if options.operations_milli > MAX_OPERATIONS_MILLI {
        return Err(BenchError::TooManyOperations);
    }
    let mut ws: Vec<Workload> = Vec::new();
    let mut i: usize = 0;
    while i < counts.len()
        invariant
            i <= counts@.len(),
            options.operations_milli <= MAX_OPERATIONS_MILLI,
            ws@.len() == i,
            forall|j: int| 0 <= j < i ==> counts@[j] != 0,
            forall|j: int|
                0 <= j < i ==> swept(options, counts@[j], ws@[j]),
        decreases counts@.len() - i,
    {
        let n = counts[i];
        if n == 0 {
            assert(counts@[i as int] == 0);
            return Err(BenchError::ZeroThreads);
        }
        let w = create(options, n as usize);
        assert(w.wf());
        ws.push(w);
        assert(ws@[i as int] == w);
        i = i + 1;
    }
    Ok(ws)
}

} // verus!
