//! Benchmark metrics: hit counters, latency distributions, and the reservoir
//! that samples latencies.  Durations are whole nanoseconds.
use vstd::prelude::*;
use vstd::layout::size_of_val_as_usize;
use crate::key_only::{decimal_bytes, push_bytes, push_decimal};

verus! {

/// Hit/miss statistics of a replay.
#[derive(Debug, Clone, Copy, PartialEq, Eq, Structural)]
pub struct HitStats {
    pub hits: u64,
    pub misses: u64,
    pub inserts: u64,
    pub updates: u64,
}

/// All counters zero.
pub open spec fn no_hits() -> HitStats {
    HitStats { hits: 0, misses: 0, inserts: 0, updates: 0 }
}

impl Default for HitStats {
    fn default() -> (r: HitStats)
        ensures
            r == no_hits(),
    {
        HitStats { hits: 0, misses: 0, inserts: 0, updates: 0 }
    }
}

impl HitStats {
    /// Lookups counted: hits plus misses.
    pub fn total_ops(&self) -> (r: u64)
        requires
            self.hits + self.misses <= u64::MAX,
        ensures
            r == self.hits + self.misses,
    {
        self.hits + self.misses
    }
}

/// Latency distribution, in nanoseconds, of a set of samples.
#[derive(Debug, Clone, Copy, PartialEq, Eq, Structural)]
pub struct LatencyStats {
    pub min: u64,
    pub p50: u64,
    pub p95: u64,
    pub p99: u64,
    pub max: u64,
    pub mean: u64,
    pub sample_count: usize,
}

/// No samples: every figure zero.
pub open spec fn empty_latency() -> LatencyStats {
    LatencyStats { min: 0, p50: 0, p95: 0, p99: 0, max: 0, mean: 0, sample_count: 0 }
}

impl Default for LatencyStats {
    fn default() -> (r: LatencyStats)
        ensures
            r == empty_latency(),
    {
        LatencyStats { min: 0, p50: 0, p95: 0, p99: 0, max: 0, mean: 0, sample_count: 0 }
    }
}

/// Whether `s` is in ascending order.
pub open spec fn ascending(s: Seq<u64>) -> bool {
    forall|i: int, j: int| 0 <= i <= j < s.len() ==> s[i] <= s[j]
}

/// Sum of the samples.
pub open spec fn total(s: Seq<u64>) -> int
    decreases s.len(),
{
    if s.len() == 0 {
        0
    } else {
        total(s.drop_last()) + s.last()
    }
}

/// The statistics of sorted samples `s`: figures read at truncated
/// percentile indices (`n * 95 / 100` and so on) and the truncated mean.
pub open spec fn latency_of(s: Seq<u64>) -> LatencyStats {
    let n = s.len() as int;
    if n == 0 {
        empty_latency()
    } else {
        LatencyStats {
            min: s[0],
            p50: s[n / 2],
            p95: s[n * 95 / 100],
            p99: s[n * 99 / 100],
            max: s[n - 1],
            mean: (total(s) / n) as u64,
            sample_count: n as usize,
        }
    }
}

/// Relies on `slice::sort_unstable`: the same items, in ascending order.
#[verifier::external_body]
fn sort_ascending(v: &mut Vec<u64>)
    ensures
        final(v)@.to_multiset() == old(v)@.to_multiset(),
        ascending(final(v)@),
{
    v.sort_unstable();
}

proof fn total_bound(s: Seq<u64>)
    ensures
        0 <= total(s) <= s.len() * 0xffff_ffff_ffff_ffff,
    decreases s.len(),
{
    if s.len() > 0 {
        total_bound(s.drop_last());
    }
}

impl LatencyStats {
    /// Sort `samples` in place and read the distribution off them.
    pub fn from_samples(samples: &mut Vec<u64>) -> (r: LatencyStats)
        ensures
            final(samples)@.to_multiset() == old(samples)@.to_multiset(),
            ascending(final(samples)@),
            r == latency_of(final(samples)@),
            old(samples)@.len() > 0 ==> r.min <= r.p50 <= r.p95 <= r.p99 <= r.max,
    {
        proof {
            old(samples)@.to_multiset_ensures();
        }
        if samples.len() == 0 {
            return LatencyStats { min: 0, p50: 0, p95: 0, p99: 0, max: 0, mean: 0, sample_count: 0 };
        }
        sort_ascending(samples);
        proof {
            samples@.to_multiset_ensures();
        }
        let n = samples.len();
        let mut sum: u128 = 0;
        let mut i: usize = 0;
        while i < n
            invariant
                n == samples@.len(),
                i <= n,
                sum == total(samples@.subrange(0, i as int)),
            decreases n - i,
        {
            proof {
                let s = samples@.subrange(0, i as int + 1);
                assert(s.drop_last() =~= samples@.subrange(0, i as int));
                total_bound(samples@.subrange(0, i as int));
                assert(sum + samples@[i as int] <= (i + 1) * 0xffff_ffff_ffff_ffff) by (nonlinear_arith)
                    requires
                        sum <= i * 0xffff_ffff_ffff_ffff,
                        samples@[i as int] <= 0xffff_ffff_ffff_ffffu64,
                ;
                assert((i + 1) * 0xffff_ffff_ffff_ffff <= 0xffff_ffff_ffff_ffff * 0xffff_ffff_ffff_ffff) by (nonlinear_arith)
                    requires
                        i + 1 <= 0xffff_ffff_ffff_ffffint,
                ;
            }
            sum = sum + samples[i] as u128;
            i = i + 1;
        }
        assert(samples@.subrange(0, n as int) =~= samples@);
        proof {
            total_bound(samples@);
            assert(sum as int / (n as int) <= 0xffff_ffff_ffff_ffff) by (nonlinear_arith)
                requires
                    sum <= n * 0xffff_ffff_ffff_ffff,
                    n > 0,
            ;
        }
        let mean = (sum / n as u128) as u64;
        let i95 = ((n as u128 * 95) / 100) as usize;
        let i99 = ((n as u128 * 99) / 100) as usize;
        LatencyStats {
            min: samples[0],
            p50: samples[n / 2],
            p95: samples[i95],
            p99: samples[i99],
            max: samples[n - 1],
            mean,
            sample_count: n,
        }
    }
}

/// Samples operation latencies without keeping every one.
///
/// Every `sample_rate`-th recorded latency is kept.  Up to `capacity` are
/// stored; after that a kept latency overwrites the slot at `count mod
/// capacity`.  This is a cheap stand-in for reservoir sampling: past the
/// first `capacity` kept samples, inclusion is not uniform.
#[derive(Debug)]
pub struct LatencySampler {
    samples: Vec<u64>,
    capacity: usize,
    count: u64,
    sample_rate: u64,
}

/// What a sampler holds: samples kept, capacity, latencies seen, and rate.
pub struct SamplerModel {
    pub samples: Seq<u64>,
    pub capacity: usize,
    pub count: u64,
    pub sample_rate: u64,
}

impl View for LatencySampler {
    type V = SamplerModel;

    closed spec fn view(&self) -> SamplerModel {
        SamplerModel {
            samples: self.samples@,
            capacity: self.capacity,
            count: self.count,
            sample_rate: self.sample_rate,
        }
    }
}

/// The samples after recording latency `d` with `count` latencies seen so
/// far (this one included).
pub open spec fn record_into(m: SamplerModel, count: u64, d: u64) -> Seq<u64> {
    if count % m.sample_rate != 0 {
        m.samples
    } else if m.samples.len() < m.capacity {
        m.samples.push(d)
    } else if m.capacity == 0 {
        m.samples
    } else {
        m.samples.update(count as int % (m.capacity as int), d)
    }
}

impl LatencySampler {
    /// Well-formedness: a positive rate and no more samples than capacity.
    pub open spec fn wf(&self) -> bool {
        self@.sample_rate >= 1 && self@.samples.len() <= self@.capacity
    }

    /// A sampler keeping up to `capacity` samples, one of every `sample_rate`
    /// latencies (a rate of zero counts as one).
    pub fn new(capacity: usize, sample_rate: u64) -> (r: LatencySampler)
        ensures
            r.wf(),
            r@.samples.len() == 0,
            r@.capacity == capacity,
            r@.count == 0,
            r@.sample_rate == (if sample_rate == 0 { 1 } else { sample_rate }),
    {
        LatencySampler {
            samples: Vec::new(),
            capacity,
            count: 0,
            sample_rate: if sample_rate == 0 { 1 } else { sample_rate },
        }
    }

    /// Record one latency, keeping it if it is selected for sampling.
    pub fn record(&mut self, duration: u64)
        requires
            old(self).wf(),
        ensures
            final(self).wf(),
            final(self)@.count == (old(self)@.count + 1) % 0x1_0000_0000_0000_0000int,
            final(self)@.capacity == old(self)@.capacity,
            final(self)@.sample_rate == old(self)@.sample_rate,
            final(self)@.samples == record_into(old(self)@, final(self)@.count, duration),
    {
        self.count = self.count.wrapping_add(1);
        if self.count % self.sample_rate != 0 {
            return;
        }
        if self.samples.len() < self.capacity {
            self.samples.push(duration);
        } else if self.capacity == 0 {
            return;
        } else {
            let slot = (self.count % self.capacity as u64) as usize;
            self.samples.set(slot, duration);
        }
    }

    /// Statistics of the samples kept; sorts them in place.
    pub fn stats(&mut self) -> (r: LatencyStats)
        requires
            old(self).wf(),
        ensures
            final(self).wf(),
            final(self)@.samples.to_multiset() == old(self)@.samples.to_multiset(),
            final(self)@.capacity == old(self)@.capacity,
            final(self)@.count == old(self)@.count,
            final(self)@.sample_rate == old(self)@.sample_rate,
            ascending(final(self)@.samples),
            r == latency_of(final(self)@.samples),
    {
        proof {
            old(self)@.samples.to_multiset_ensures();
        }
        let r = LatencyStats::from_samples(&mut self.samples);
        proof {
            self@.samples.to_multiset_ensures();
        }
        r
    }
}

/// Memory usage estimate.
#[derive(Debug, Clone, Copy, PartialEq, Eq, Structural)]
pub struct MemoryEstimate {
    pub total_bytes: usize,
    pub bytes_per_entry: usize,
    pub entry_count: usize,
}

/// Estimate memory per entry from the size of the cache value itself
/// (`size_of_val`) shared over `entries` entries.
pub fn estimate_entry_overhead<C>(cache: &C, entries: usize) -> (r: MemoryEstimate)
    ensures
        r.total_bytes == size_of_val_as_usize(cache),
        r.entry_count == entries,
        r.bytes_per_entry == (if entries > 0 { r.total_bytes / entries } else { 0 }),
{
    let cache_size = std::mem::size_of_val(cache);
    MemoryEstimate {
        total_bytes: cache_size,
        bytes_per_entry: if entries > 0 { cache_size / entries } else { 0 },
        entry_count: entries,
    }
}

/// Relies on `String::from_utf8`: ASCII bytes are valid UTF-8 and become
/// the characters with the same codes.
#[verifier::external_body]
fn ascii_string(bytes: Vec<u8>) -> (r: String)
    requires
        forall|i: int| 0 <= i < bytes@.len() ==> bytes@[i] < 128,
    ensures
        r@ == bytes@.map_values(|b: u8| b as char),
{
    String::from_utf8(bytes).unwrap()
}

proof fn decimal_is_ascii(n: nat)
    ensures
        forall|i: int| 0 <= i < decimal_bytes(n).len() ==> decimal_bytes(n)[i] < 128,
    decreases n,
{
    if n >= 10 {
        decimal_is_ascii(n / 10);
        let d = decimal_bytes(n / 10);
        assert(decimal_bytes(n) == d.push((48 + n % 10) as u8));
        assert forall|i: int| 0 <= i < decimal_bytes(n).len() implies decimal_bytes(n)[i] < 128 by {
            if i < d.len() {
                assert(decimal_bytes(n)[i] == d[i]);
            }
        }
    } else {
        assert(decimal_bytes(n) == seq![(48 + n) as u8]);
    }
}

/// The summary line of an estimate, as bytes.
pub open spec fn memory_summary(m: MemoryEstimate) -> Seq<u8> {
    seq![116u8, 111u8, 116u8, 97u8, 108u8, 61u8]
        + decimal_bytes((m.total_bytes / 1024) as nat)
        + seq![75u8, 66u8, 32u8, 101u8, 110u8, 116u8, 114u8, 105u8, 101u8, 115u8, 61u8]
        + decimal_bytes(m.entry_count as nat)
        + seq![32u8, 98u8, 121u8, 116u8, 101u8, 115u8, 47u8, 101u8, 110u8, 116u8, 114u8, 121u8, 61u8]
        + decimal_bytes(m.bytes_per_entry as nat)
}

impl MemoryEstimate {
    /// `total=<KiB>KB entries=<n> bytes/entry=<b>`.
    pub fn summary(&self) -> (r: String)
        ensures
            r@ == memory_summary(*self).map_values(|b: u8| b as char),
    {
        let mut out: Vec<u8> = Vec::new();
        push_bytes(&mut out, vec![116u8, 111u8, 116u8, 97u8, 108u8, 61u8]);
        push_decimal(&mut out, (self.total_bytes / 1024) as u64);
        push_bytes(&mut out, vec![75u8, 66u8, 32u8, 101u8, 110u8, 116u8, 114u8, 105u8, 101u8, 115u8, 61u8]);
        push_decimal(&mut out, self.entry_count as u64);
        push_bytes(&mut out, vec![32u8, 98u8, 121u8, 116u8, 101u8, 115u8, 47u8, 101u8, 110u8, 116u8, 114u8, 121u8, 61u8]);
        push_decimal(&mut out, self.bytes_per_entry as u64);
        proof {
            decimal_is_ascii((self.total_bytes / 1024) as nat);
            decimal_is_ascii(self.entry_count as nat);
            decimal_is_ascii(self.bytes_per_entry as nat);
            assert(out@ =~= memory_summary(*self));
        }
        ascii_string(out)
    }
}

} // verus!
