//! Fixed text of the benchmark reports.
use vstd::prelude::*;

verus! {

/// The policy selection table of the benchmark report, in Markdown.
pub const POLICY_GUIDE: &'static str = "| Use Case | Recommended Policy | Why |
|----------|-------------------|-----|
| **General purpose, skewed workloads** | LRU, LFU, S3-FIFO | Best hit rates on Zipfian/skewed patterns |
| **Scan-heavy workloads** | S3-FIFO, Heap-LFU | Scan-resistant, protect hot entries |
| **Low latency required** | LRU, Clock | Fastest operations, O(1) overhead |
| **Memory constrained** | LRU, Clock | Minimal metadata overhead |
| **Frequency-aware** | LFU, Heap-LFU, LRU-K | Track access frequency for better decisions |
| **Shifting patterns** | S3-FIFO, 2Q | Adapt to changing access patterns |
| **Multi-access patterns** | 2Q, S3-FIFO | Handle mixed one-hit and frequent items |
";

/// The policy selection guide of the benchmark report.
pub fn generate_policy_guide() -> (r: String)
    ensures
        r@ == POLICY_GUIDE@,
{
    POLICY_GUIDE.to_owned()
}

} // verus!
