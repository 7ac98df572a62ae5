//! The sizes of a run as this library designs it: the table's capacity,
//! how many keys are prefilled and operations issued, how both are split
//! over the workers (the remainder goes to worker 0, so nothing is lost),
//! and a dense range of prefill keys.
//!
//! This is a model of the run, proved here. The benchmark binary hands its
//! runs to bustle, which sizes them its own way: it drops the remainder of
//! each split and draws its keys at random.

use vstd::prelude::*;
use crate::workloads::{Workload, MAX_CAPACITY_LOG2, MAX_OPERATIONS_MILLI};
use vstd::arithmetic::power2::{pow2, lemma2_to64, lemma_pow2_unfold, lemma_pow2_strictly_increases};

verus! {

/// The number of slots a workload's table is created with.
pub open spec fn capacity_of(w: Workload) -> nat {
    pow2(w.capacity_log2 as nat)
}

/// How many keys are inserted before the measured phase: the prefill
/// fraction of the capacity, rounded down.
pub open spec fn prefill_total(w: Workload) -> nat {
    (capacity_of(w) * w.prefill_permille as nat / 1000) as nat
}

/// How many operations the measured phase issues in all: the operation
/// multiplier times the capacity, rounded down.
pub open spec fn operation_total(w: Workload) -> nat {
    (capacity_of(w) * w.operations_milli as nat / 1000) as nat
}

/// Worker `t`'s part of `total` split over `threads` workers: an even
/// share, with the remainder of the division given to worker 0.
pub open spec fn share(total: nat, threads: nat, t: nat) -> nat {
    if t == 0 {
        total / threads + total % threads
    } else {
        total / threads
    }
}

/// The parts of workers `0 .. n`, added up.
pub open spec fn shares_before(total: nat, threads: nat, n: nat) -> nat
    decreases n,
{
    if n == 0 {
        0
    } else {
        shares_before(total, threads, (n - 1) as nat) + share(total, threads, (n - 1) as nat)
    }
}

/// The `c`-th key worker `t` prefills: keys are handed out in one dense
/// range, worker after worker.
pub open spec fn prefill_key_of(total: nat, threads: nat, t: nat, c: nat) -> nat {
    shares_before(total, threads, t) + c
}

/// Some worker prefills key `k`.
pub open spec fn has_owner(total: nat, threads: nat, k: nat) -> bool {
    exists|t: nat, c: nat|
        t < threads && c < share(total, threads, t) && #[trigger] prefill_key_of(
            total,
            threads,
            t,
            c,
        ) == k
}

proof fn lemma_shares_before_closed(total: nat, threads: nat, n: nat)
    requires
        threads > 0,
        n > 0,
    ensures
        shares_before(total, threads, n) == n * (total / threads) + total % threads,
    decreases n,
{
    let q = total / threads;
    if n > 1 {
        lemma_shares_before_closed(total, threads, (n - 1) as nat);
        assert(n * q == (n - 1) * q + q) by (nonlinear_arith)
            requires
                n >= 1,
        ;
    } else {
        assert(shares_before(total, threads, 0) == 0);
        assert(1 * q == q);
    }
}

proof fn lemma_shares_before_monotone(total: nat, threads: nat, a: nat, b: nat)
    requires
        a <= b,
    ensures
        shares_before(total, threads, a) <= shares_before(total, threads, b),
    decreases b - a,
{
    if a < b {
        lemma_shares_before_monotone(total, threads, a, (b - 1) as nat);
    }
}

/// The parts of all workers add up to the whole: splitting neither loses
/// nor counts twice an operation or a prefill key.
pub proof fn lemma_shares_sum(total: nat, threads: nat)
    requires
        threads > 0,
    ensures
        shares_before(total, threads, threads) == total,
        forall|t: nat| t < threads ==> total / threads <= #[trigger] share(total, threads, t)
            <= total / threads + threads - 1,
{
    lemma_shares_before_closed(total, threads, threads);
    vstd::arithmetic::div_mod::lemma_fundamental_div_mod(total as int, threads as int);
    assert(threads * (total / threads) == (total / threads) * threads) by (nonlinear_arith);
}

/// The prefill keys of all workers are distinct and fill exactly the range
/// `0 .. total`: `total` distinct keys are inserted before measuring.
pub proof fn lemma_prefill_keys(total: nat, threads: nat)
    requires
        threads > 0,
    ensures
        forall|t: nat, c: nat|
            t < threads && c < share(total, threads, t) ==> #[trigger] prefill_key_of(
                total,
                threads,
                t,
                c,
            ) < total,
        forall|t1: nat, c1: nat, t2: nat, c2: nat|
            t1 < threads && c1 < share(total, threads, t1) && t2 < threads && c2 < share(
                total,
                threads,
                t2,
            ) && #[trigger] prefill_key_of(total, threads, t1, c1) == #[trigger] prefill_key_of(
                total,
                threads,
                t2,
                c2,
            ) ==> t1 == t2 && c1 == c2,
        forall|k: nat| k < total ==> #[trigger] has_owner(total, threads, k),
{
    lemma_shares_sum(total, threads);
    assert forall|t: nat, c: nat|
        t < threads && c < share(total, threads, t) implies #[trigger] prefill_key_of(
        total,
        threads,
        t,
        c,
    ) < total by {
        lemma_shares_before_monotone(total, threads, t + 1, threads);
    }
    assert forall|t1: nat, c1: nat, t2: nat, c2: nat|
        t1 < threads && c1 < share(total, threads, t1) && t2 < threads && c2 < share(
            total,
            threads,
            t2,
        ) && #[trigger] prefill_key_of(total, threads, t1, c1) == #[trigger] prefill_key_of(
            total,
            threads,
            t2,
            c2,
        ) implies t1 == t2 && c1 == c2 by {
        if t1 < t2 {
            lemma_shares_before_monotone(total, threads, t1 + 1, t2);
        } else if t2 < t1 {
            lemma_shares_before_monotone(total, threads, t2 + 1, t1);
        }
    }
    assert forall|k: nat| k < total implies #[trigger] has_owner(total, threads, k) by {
        lemma_key_owner(total, threads, k, threads);
    }
}

proof fn lemma_key_owner(total: nat, threads: nat, k: nat, n: nat)
    requires
        n <= threads,
        k < shares_before(total, threads, n),
    ensures
        has_owner(total, threads, k),
    decreases n,
{
    let m = (n - 1) as nat;
    if k >= shares_before(total, threads, m) {
        let c = (k - shares_before(total, threads, m)) as nat;
        assert(prefill_key_of(total, threads, m, c) == k);
    } else {
        lemma_key_owner(total, threads, k, m);
    }
}

/// The number of slots a workload's table is created with.
pub fn capacity(w: &Workload) -> (r: u64)
    requires
        w.wf(),
    ensures
        r == capacity_of(*w),
        r <= 0x8000_0000,
{
    proof {
        lemma2_to64();
    }
    let mut r: u64 = 1;
    let mut i: u8 = 0;
    while i < w.capacity_log2
        invariant
            i <= w.capacity_log2 <= MAX_CAPACITY_LOG2,
            r == pow2(i as nat),
            pow2(31) == 0x8000_0000,
        decreases w.capacity_log2 - i,
    {
        proof {
            lemma_pow2_unfold((i + 1) as nat);
            if i + 1 < 31 {
                lemma_pow2_strictly_increases((i + 1) as nat, 31);
            }
        }
        r = r * 2;
        i = i + 1;
    }
    proof {
        if i < 31 {
            lemma_pow2_strictly_increases(i as nat, 31);
        }
    }
    r
}

/// How many keys are inserted before the measured phase.
pub fn prefill_count(w: &Workload) -> (r: u64)
    requires
        w.wf(),
    ensures
        r == prefill_total(*w),
{
    let cap = capacity(w);
    assert(cap * w.prefill_permille <= 0x8000_0000 * 1000) by (nonlinear_arith)
        requires
            cap <= 0x8000_0000,
            w.prefill_permille <= 1000,
    ;
    cap * (w.prefill_permille as u64) / 1000
}

/// How many operations the measured phase issues in all.
pub fn operation_count(w: &Workload) -> (r: u64)
    requires
        w.wf(),
    ensures
        r == operation_total(*w),
{
    let cap = capacity(w);
    assert(cap * w.operations_milli <= 0x8000_0000 * 0x1_0000_0000) by (nonlinear_arith)
        requires
            cap <= 0x8000_0000,
            w.operations_milli <= MAX_OPERATIONS_MILLI,
    ;
    cap * w.operations_milli / 1000
}

/// Worker `t`'s part of `total` split over `threads` workers.
pub fn worker_share(total: u64, threads: usize, t: usize) -> (r: u64)
    requires
        threads > 0,
    ensures
        r == share(total as nat, threads as nat, t as nat),
{
    let q = total / threads as u64;
    if t == 0 {
        let rem = total % threads as u64;
        proof {
            vstd::arithmetic::div_mod::lemma_fundamental_div_mod(total as int, threads as int);
            assert(q <= threads * q) by (nonlinear_arith)
                requires
                    threads >= 1,
            ;
        }
        q + rem
    } else {
        q
    }
}

/// The parts of `total` that each of `threads` workers gets.
pub fn worker_shares(total: u64, threads: usize) -> (r: Vec<u64>)
    requires
        threads > 0,
    ensures
        r@.len() == threads,
        forall|t: int| 0 <= t < threads ==> r@[t] == share(total as nat, threads as nat, t as nat),
{
    let mut r: Vec<u64> = Vec::new();
    let mut t: usize = 0;
    while t < threads
        invariant
            t <= threads,
            r@.len() == t,
            forall|j: int| 0 <= j < t ==> r@[j] == share(total as nat, threads as nat, j as nat),
        decreases threads - t,
    {
        r.push(worker_share(total, threads, t));
        t = t + 1;
    }
    r
}

/// The `c`-th key that worker `t` inserts while prefilling.
pub fn prefill_key(total: u64, threads: usize, t: usize, c: u64) -> (r: u64)
    requires
        t < threads,
        c < share(total as nat, threads as nat, t as nat),
    ensures
        r == prefill_key_of(total as nat, threads as nat, t as nat, c as nat),
        r < total,
{
    proof {
        lemma_prefill_keys(total as nat, threads as nat);
        assert(prefill_key_of(total as nat, threads as nat, t as nat, c as nat) < total);
    }
    if t == 0 {
        c
    } else {
        let q = total / threads as u64;
        let rem = total % threads as u64;
        proof {
            lemma_shares_before_closed(total as nat, threads as nat, t as nat);
            assert(q * t == t * q) by (nonlinear_arith);
            assert(q * t + rem + c < total);
        }
        q * t as u64 + rem + c
    }
}

/// The sizes of one run: the table's capacity, and how the prefill keys
/// and the measured operations are split over the workers.
#[derive(Debug)]
pub struct WorkPlan {
    pub capacity: u64,
    pub prefill_total: u64,
    pub operation_total: u64,
    pub prefill_per_worker: Vec<u64>,
    pub ops_per_worker: Vec<u64>,
}

/// The sizes of the run that workload `w` describes.
pub fn plan(w: &Workload) -> (r: WorkPlan)
    requires
        w.wf(),
    ensures
        r.capacity == capacity_of(*w),
        r.prefill_total == prefill_total(*w),
        r.operation_total == operation_total(*w),
        r.prefill_per_worker@.len() == w.threads,
        r.ops_per_worker@.len() == w.threads,
        forall|t: int|
            0 <= t < w.threads ==> r.prefill_per_worker@[t] == share(
                r.prefill_total as nat,
                w.threads as nat,
                t as nat,
            ) && r.ops_per_worker@[t] == share(r.operation_total as nat, w.threads as nat, t as nat),
{
    let capacity = capacity(w);
    let prefill_total = prefill_count(w);
    let operation_total = operation_count(w);
    WorkPlan {
        capacity,
        prefill_total,
        operation_total,
        prefill_per_worker: worker_shares(prefill_total, w.threads),
        ops_per_worker: worker_shares(operation_total, w.threads),
    }
}

} // verus!
