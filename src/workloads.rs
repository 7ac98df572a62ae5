use vstd::prelude::*;
use crate::bench::Options;

verus! {

/// The predefined workloads that a benchmark run can select.
#[derive(Debug, Clone, Copy, PartialEq, Eq, Structural)]
pub enum WorkloadKind {
    ReadHeavy,
    WriteHeavy,
    Mixed,
}

/// Error returned when a workload name is not one of the predefined kinds.
#[derive(Debug, Clone, Copy, PartialEq, Eq, Structural)]
pub struct InvalidWorkloadKind;

impl InvalidWorkloadKind {
    /// The message shown to the user.
    pub fn message(&self) -> (r: &'static str)
        ensures
            r@ == "invalid workload kind"@,
    {
        "invalid workload kind"
    }
}

/// The name under which each kind is selected.
pub open spec fn kind_name(k: WorkloadKind) -> Seq<char> {
    match k {
        WorkloadKind::ReadHeavy => "ReadHeavy"@,
        WorkloadKind::WriteHeavy => "WriteHeavy"@,
        WorkloadKind::Mixed => "Mixed"@,
    }
}

/// Character-wise equality of two strings.
fn same_text(a: &str, b: &str) -> (r: bool)
    ensures
        r == (a@ == b@),
{
    let n = a.unicode_len();
    if n != b.unicode_len() {
        return false;
    }
    let mut i: usize = 0;
    while i < n
        invariant
            n == a@.len(),
            n == b@.len(),
            i <= n,
            forall|j: int| 0 <= j < i ==> a@[j] == b@[j],
        decreases n - i,
    {
        if a.get_char(i) != b.get_char(i) {
            return false;
        }
        i = i + 1;
    }
    assert(a@ =~= b@);
    true
}

impl WorkloadKind {
    /// Selects the workload kind whose name is exactly `s`.
    pub fn from_name(s: &str) -> (r: Result<WorkloadKind, InvalidWorkloadKind>)
        ensures
            match r {
                Ok(k) => kind_name(k) == s@,
                Err(_) => forall|k: WorkloadKind| kind_name(k) != s@,
            },
    {
        proof {
            reveal_strlit("ReadHeavy");
            reveal_strlit("WriteHeavy");
            reveal_strlit("Mixed");
        }
        if same_text(s, "ReadHeavy") {
            Ok(WorkloadKind::ReadHeavy)
        } else if same_text(s, "WriteHeavy") {
            Ok(WorkloadKind::WriteHeavy)
        } else if same_text(s, "Mixed") {
            Ok(WorkloadKind::Mixed)
        } else {
            proof {
                assert forall|k: WorkloadKind| kind_name(k) != s@ by {
                    match k {
                        WorkloadKind::ReadHeavy => {},
                        WorkloadKind::WriteHeavy => {},
                        WorkloadKind::Mixed => {},
                    }
                }
            }
            Err(InvalidWorkloadKind)
        }
    }
}

impl std::str::FromStr for WorkloadKind {
    type Err = &'static str;

    /// Selects the workload kind whose name is exactly `s`; any other text
    /// is refused with the message "invalid workload kind".
    fn from_str(s: &str) -> (r: Result<WorkloadKind, &'static str>)
        ensures
            match r {
                Ok(k) => kind_name(k) == s@,
                Err(m) => (forall|k: WorkloadKind| kind_name(k) != s@) && m@ == "invalid workload kind"@,
            },
    {
        match WorkloadKind::from_name(s) {
            Ok(k) => Ok(k),
            Err(e) => Err(e.message()),
        }
    }
}

/// Relative weights of the five operation kinds of a workload.
#[derive(Debug, Clone, Copy, PartialEq, Eq, Structural)]
pub struct Mix {
    pub read: u8,
    pub insert: u8,
    pub remove: u8,
    pub update: u8,
    pub upsert: u8,
}

impl Mix {
    /// The sum of the five weights.
    pub open spec fn weight_sum(&self) -> int {
        self.read + self.insert + self.remove + self.update + self.upsert
    }

    /// A mix can be drawn from when some weight is positive.
    pub open spec fn wf(&self) -> bool {
        self.weight_sum() > 0
    }

    /// The sum of the five weights.
    pub fn total(&self) -> (r: u16)
        ensures
            r == self.weight_sum(),
    {
        self.read as u16 + self.insert as u16 + self.remove as u16 + self.update as u16
            + self.upsert as u16
    }
}

/// Capacity exponent a workload uses when none is chosen for it.
pub const DEFAULT_CAPACITY_LOG2: u8 = 25;

/// The largest capacity exponent a workload may have.
pub const MAX_CAPACITY_LOG2: u8 = 31;

/// The largest operation multiplier, in thousandths.
pub const MAX_OPERATIONS_MILLI: u64 = 0x1_0000_0000;

/// One benchmark run's parameters. Fractions are held in thousandths:
/// `prefill_permille == 800` fills the table to 80% of its capacity, and
/// `operations_milli == 1000` issues as many operations as there are slots.
#[derive(Debug, Clone, Copy, PartialEq, Eq, Structural)]
pub struct Workload {
    pub mix: Mix,
    pub threads: usize,
    pub capacity_log2: u8,
    pub prefill_permille: u16,
    pub operations_milli: u64,
}

impl Workload {
    pub open spec fn wf(&self) -> bool {
        &&& self.mix.wf()
        &&& self.threads > 0
        &&& self.capacity_log2 <= MAX_CAPACITY_LOG2
        &&& self.prefill_permille <= 1000
        &&& self.operations_milli <= MAX_OPERATIONS_MILLI
    }
}

/// The weights of each predefined workload.
pub open spec fn kind_mix(k: WorkloadKind) -> Mix {
    match k {
        WorkloadKind::ReadHeavy => Mix { read: 98, insert: 1, remove: 1, update: 0, upsert: 0 },
        WorkloadKind::WriteHeavy => Mix { read: 5, insert: 80, remove: 5, update: 10, upsert: 0 },
        WorkloadKind::Mixed => Mix { read: 10, insert: 40, remove: 40, update: 10, upsert: 0 },
    }
}

/// The share of the capacity, in thousandths, that each predefined workload prefills.
pub open spec fn kind_prefill_permille(k: WorkloadKind) -> u16 {
    match k {
        WorkloadKind::ReadHeavy => 800,
        WorkloadKind::WriteHeavy => 0,
        WorkloadKind::Mixed => 800,
    }
}

/// The capacity exponent of each predefined workload.
pub open spec fn kind_capacity_log2(k: WorkloadKind) -> u8 {
    match k {
        WorkloadKind::ReadHeavy => 10,
        _ => DEFAULT_CAPACITY_LOG2,
    }
}

/// The weights of a predefined workload.
pub fn mix_of(k: WorkloadKind) -> (r: Mix)
    ensures
        r == kind_mix(k),
        r.wf(),
{
    match k {
        WorkloadKind::ReadHeavy => Mix { read: 98, insert: 1, remove: 1, update: 0, upsert: 0 },
        WorkloadKind::WriteHeavy => Mix { read: 5, insert: 80, remove: 5, update: 10, upsert: 0 },
        WorkloadKind::Mixed => Mix { read: 10, insert: 40, remove: 40, update: 10, upsert: 0 },
    }
}

/// The workload that `options` selects, run on `threads` workers.
pub fn create(options: &Options, threads: usize) -> (r: Workload)
    ensures
        r.mix == kind_mix(options.workload),
        r.threads == threads,
        r.capacity_log2 == kind_capacity_log2(options.workload),
        r.prefill_permille == kind_prefill_permille(options.workload),
        r.operations_milli == options.operations_milli,
        (threads > 0 && options.operations_milli <= MAX_OPERATIONS_MILLI) ==> r.wf(),
{
    let mix = mix_of(options.workload);
    let (capacity_log2, prefill_permille): (u8, u16) = match options.workload {
        WorkloadKind::ReadHeavy => (10, 800),
        WorkloadKind::WriteHeavy => (DEFAULT_CAPACITY_LOG2, 0),
        WorkloadKind::Mixed => (DEFAULT_CAPACITY_LOG2, 800),
    };
    Workload {
        mix,
        threads,
        capacity_log2,
        prefill_permille,
        operations_milli: options.operations_milli,
    }
}

/// Every mix a predefined workload uses has a positive weight sum, and
/// the weights and prefill shares are those of the predefined table.
pub proof fn lemma_predefined_mixes(k: WorkloadKind)
    ensures
        kind_mix(k).wf(),
        kind_mix(k).weight_sum() == 100,
        k == WorkloadKind::ReadHeavy ==> kind_mix(k) == (Mix { read: 98, insert: 1, remove: 1, update: 0, upsert: 0 })
            && kind_prefill_permille(k) == 800,
        k == WorkloadKind::WriteHeavy ==> kind_mix(k) == (Mix { read: 5, insert: 80, remove: 5, update: 10, upsert: 0 })
            && kind_prefill_permille(k) == 0,
        k == WorkloadKind::Mixed ==> kind_mix(k) == (Mix { read: 10, insert: 40, remove: 40, update: 10, upsert: 0 })
            && kind_prefill_permille(k) == 800,
{
}

} // verus!
