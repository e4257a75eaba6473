use tracekit::json_results;
use tracekit::jsonl::JsonlWriter;
use tracekit::metrics::{estimate_entry_overhead, LatencySampler, LatencyStats, MemoryEstimate};
use tracekit::Event;

#[test]
fn latency_percentiles_of_a_hundred_samples() {
    let mut samples: Vec<u64> = (1..=100).rev().collect();
    let s = LatencyStats::from_samples(&mut samples);
    assert_eq!(s.min, 1);
    assert_eq!(s.p50, 51);
    assert_eq!(s.p95, 96);
    assert_eq!(s.p99, 100);
    assert_eq!(s.max, 100);
    assert_eq!(s.mean, 50);
    assert_eq!(s.sample_count, 100);
    assert!(s.min <= s.p50 && s.p50 <= s.p95 && s.p95 <= s.p99 && s.p99 <= s.max);
}

#[test]
fn latency_of_no_samples_is_zero() {
    let s = LatencyStats::from_samples(&mut Vec::new());
    assert_eq!(s, LatencyStats::default());
    assert_eq!(s.sample_count, 0);
}

#[test]
fn latency_of_one_sample() {
    let s = LatencyStats::from_samples(&mut vec![7]);
    assert_eq!((s.min, s.p50, s.p95, s.p99, s.max, s.mean), (7, 7, 7, 7, 7, 7));
}

#[test]
fn sampler_keeps_every_rate_th() {
    let mut s = LatencySampler::new(10, 2);
    for d in 1..=6 {
        s.record(d);
    }
    let st = s.stats();
    assert_eq!(st.sample_count, 3);
    assert_eq!((st.min, st.max), (2, 6));
}

#[test]
fn sampler_overwrites_once_full() {
    let mut s = LatencySampler::new(2, 1);
    s.record(10);
    s.record(20);
    // count 3: the samples are full, so slot 3 % 2 = 1 is replaced.
    s.record(30);
    let st = s.stats();
    assert_eq!(st.sample_count, 2);
    assert_eq!((st.min, st.max), (10, 30));
}

#[test]
fn sampler_without_capacity_keeps_nothing() {
    let mut s = LatencySampler::new(0, 0);
    s.record(5);
    assert_eq!(s.stats().sample_count, 0);
}

#[test]
fn artifact_latency_record() {
    let m = LatencyStats { min: 1, p50: 2, p95: 3, p99: 4, max: 5, mean: 6, sample_count: 7 };
    let r = json_results::LatencyStats::from_measured(&m);
    assert_eq!((r.min_ns, r.p99_ns, r.mean_ns, r.sample_count), (1, 4, 6, 7));
}

#[test]
fn memory_estimate_and_summary() {
    let data = [0u64; 512];
    let m = estimate_entry_overhead(&data, 8);
    assert_eq!(m.total_bytes, 4096);
    assert_eq!(m.bytes_per_entry, 512);
    assert_eq!(m.summary(), "total=4KB entries=8 bytes/entry=512");
    let none = estimate_entry_overhead(&data, 0);
    assert_eq!(none.bytes_per_entry, 0);
    let e = MemoryEstimate { total_bytes: 0, bytes_per_entry: 0, entry_count: 0 };
    assert_eq!(e.summary(), "total=0KB entries=0 bytes/entry=0");
}

#[test]
fn test_jsonl_writer() {
    let mut writer = JsonlWriter::new(Vec::new());
    writer.write_event(&Event::get(123));
    writer.write_event(&Event::insert(456).with_weight(100));
    writer.flush();
    let output = String::from_utf8(writer.into_inner()).unwrap();
    assert!(output.contains("\"key\":123"));
    assert!(output.contains("\"key\":456"));
    assert!(output.contains("\"weight\":100"));
}

#[test]
fn jsonl_lines_are_compact_objects() {
    let mut writer = JsonlWriter::new(Vec::new());
    writer.write_event(&Event::get(1));
    writer.write_event(&Event::delete(2).with_ts(9));
    writer.write_event(&Event::insert(3).with_weight(4).with_ts(5));
    let output = String::from_utf8(writer.into_inner()).unwrap();
    assert_eq!(
        output,
        "{\"key\":1}\n{\"key\":2,\"op\":\"delete\",\"ts\":9}\n{\"key\":3,\"op\":\"insert\",\"weight\":4,\"ts\":5}\n"
    );
}
