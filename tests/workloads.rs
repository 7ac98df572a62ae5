use std::str::FromStr;
use mapbench::bench::{create_handler, sweep_workloads, thread_counts, BenchError, Options, ReportStyle};
use mapbench::workloads::{create, mix_of, Mix, WorkloadKind, InvalidWorkloadKind};

fn options(kind: WorkloadKind) -> Options {
    Options { workload: kind, operations_milli: 1000, threads: None, collect_csv: false }
}

#[test]
fn names_select_kinds() {
    assert_eq!(WorkloadKind::from_name("ReadHeavy"), Ok(WorkloadKind::ReadHeavy));
    assert_eq!(WorkloadKind::from_name("WriteHeavy"), Ok(WorkloadKind::WriteHeavy));
    assert_eq!(WorkloadKind::from_name("Mixed"), Ok(WorkloadKind::Mixed));
}

#[test]
fn unknown_names_are_rejected() {
    assert_eq!(WorkloadKind::from_name("readheavy"), Err(InvalidWorkloadKind));
    assert_eq!(WorkloadKind::from_name(""), Err(InvalidWorkloadKind));
    assert_eq!(WorkloadKind::from_name("Mixed "), Err(InvalidWorkloadKind));
    let parsed: Result<WorkloadKind, &'static str> = "Bogus".parse();
    assert_eq!(parsed, Err("invalid workload kind"));
    let parsed: Result<WorkloadKind, &'static str> = "Mixed".parse();
    assert_eq!(parsed, Ok(WorkloadKind::Mixed));
}

#[test]
fn predefined_mixes_match_table() {
    assert_eq!(mix_of(WorkloadKind::ReadHeavy), Mix { read: 98, insert: 1, remove: 1, update: 0, upsert: 0 });
    assert_eq!(mix_of(WorkloadKind::WriteHeavy), Mix { read: 5, insert: 80, remove: 5, update: 10, upsert: 0 });
    assert_eq!(mix_of(WorkloadKind::Mixed), Mix { read: 10, insert: 40, remove: 40, update: 10, upsert: 0 });
    for k in [WorkloadKind::ReadHeavy, WorkloadKind::WriteHeavy, WorkloadKind::Mixed] {
        assert_eq!(mix_of(k).total(), 100);
    }
}

#[test]
fn create_sets_capacity_and_prefill() {
    let w = create(&options(WorkloadKind::ReadHeavy), 4);
    assert_eq!(w.threads, 4);
    assert_eq!(w.capacity_log2, 10);
    assert_eq!(w.prefill_permille, 800);
    assert_eq!(w.operations_milli, 1000);
    let w = create(&options(WorkloadKind::WriteHeavy), 1);
    assert_eq!(w.capacity_log2, 25);
    assert_eq!(w.prefill_permille, 0);
    let w = create(&options(WorkloadKind::Mixed), 2);
    assert_eq!(w.capacity_log2, 25);
    assert_eq!(w.prefill_permille, 800);
}

#[test]
fn csv_collection_is_unsupported() {
    let mut o = options(WorkloadKind::Mixed);
    assert_eq!(create_handler(&o), Ok(ReportStyle::Console));
    o.collect_csv = true;
    assert_eq!(create_handler(&o), Err(BenchError::CsvUnsupported));
}

#[test]
fn default_thread_counts_follow_processors() {
    assert_eq!(thread_counts(&None, 4), Ok(vec![1, 2, 3, 4, 5]));
    assert_eq!(thread_counts(&None, 3), Ok(vec![1, 2, 3]));
    assert_eq!(thread_counts(&None, 1), Ok(vec![]));
    assert_eq!(thread_counts(&None, 0), Ok(vec![]));
}

#[test]
fn explicit_thread_counts_are_kept() {
    assert_eq!(thread_counts(&Some(vec![1, 2, 8]), 64), Ok(vec![1, 2, 8]));
    assert_eq!(thread_counts(&Some(vec![]), 64), Ok(vec![]));
    assert_eq!(thread_counts(&Some(vec![2, 0]), 64), Err(BenchError::ZeroThreads));
}

#[test]
fn sweep_builds_one_workload_per_count() {
    let o = options(WorkloadKind::ReadHeavy);
    let ws = sweep_workloads(&o, &vec![1, 2, 4]).unwrap();
    assert_eq!(ws.len(), 3);
    assert_eq!(ws[0].threads, 1);
    assert_eq!(ws[2].threads, 4);
    assert_eq!(ws[1].mix, mix_of(WorkloadKind::ReadHeavy));
    assert_eq!(sweep_workloads(&o, &vec![1, 0]), Err(BenchError::ZeroThreads));
    let mut big = options(WorkloadKind::Mixed);
    big.operations_milli = 0x1_0000_0001;
    assert_eq!(sweep_workloads(&big, &vec![1]), Err(BenchError::TooManyOperations));
}

#[test]
fn from_str_is_exact_and_case_sensitive() {
    assert_eq!(WorkloadKind::from_str("ReadHeavy"), Ok(WorkloadKind::ReadHeavy));
    assert_eq!(WorkloadKind::from_str("WriteHeavy"), Ok(WorkloadKind::WriteHeavy));
    assert_eq!(WorkloadKind::from_str("Mixed"), Ok(WorkloadKind::Mixed));
    assert_eq!(WorkloadKind::from_str("readheavy"), Err("invalid workload kind"));
    assert_eq!(WorkloadKind::from_str("Mixe"), Err("invalid workload kind"));
}
