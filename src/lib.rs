//! A harness for benchmarking concurrent maps: the workload model and the
//! sweep over thread counts, the latency and throughput of a measurement,
//! and a proved model of a run (the per-worker quota and key plan, the start
//! barrier, and the aggregation of per-worker counts).
//!
//! The benchmark binary drives each run through bustle. bustle sizes, starts
//! and counts a run in its own way, so the model here describes the design of
//! a run, not what bustle does.

pub mod barrier;
pub mod bench;
pub mod measure;
pub mod plan;
pub mod workloads;
