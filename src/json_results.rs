//! Plain result records embedded in benchmark artifacts.
use vstd::prelude::*;
use crate::metrics;

verus! {

/// Latency distribution as stored in a benchmark artifact, in nanoseconds.
#[derive(Debug, Clone, Copy, PartialEq, Eq, Structural)]
pub struct LatencyStats {
    /// Number of samples collected.
    pub sample_count: usize,
    /// Minimum latency.
    pub min_ns: u64,
    /// Median latency.
    pub p50_ns: u64,
    /// 95th percentile latency.
    pub p95_ns: u64,
    /// 99th percentile latency.
    pub p99_ns: u64,
    /// Maximum latency.
    pub max_ns: u64,
    /// Mean latency.
    pub mean_ns: u64,
}

impl LatencyStats {
    /// The record of a measured distribution.
    pub fn from_measured(m: &metrics::LatencyStats) -> (r: LatencyStats)
        ensures
            r == (LatencyStats {
                sample_count: m.sample_count,
                min_ns: m.min,
                p50_ns: m.p50,
                p95_ns: m.p95,
                p99_ns: m.p99,
                max_ns: m.max,
                mean_ns: m.mean,
            }),
    {
        LatencyStats {
            sample_count: m.sample_count,
            min_ns: m.min,
            p50_ns: m.p50,
            p95_ns: m.p95,
            p99_ns: m.p99,
            max_ns: m.max,
            mean_ns: m.mean,
        }
    }
}

} // verus!
