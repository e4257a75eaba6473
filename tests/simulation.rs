use std::collections::HashSet;
use tracekit::adapter::{CachekitAdapter, SimpleCacheLike};
use tracekit::measure::{adaptation_of, measure_adaptation, measure_scan_resistance, resistance_score, Ratio};
use tracekit::metrics::HitStats;
use tracekit::simulator::{replay_upto, tally_event};
use tracekit::workload::HitRate;
use tracekit::{simulate, simulate_explicit, CacheModel, Event, Op};

#[derive(Default)]
struct SetCache {
    keys: HashSet<u64>,
}

impl CacheModel for SetCache {
    fn get(&mut self, key: u64) -> bool {
        self.keys.contains(&key)
    }

    fn insert(&mut self, key: u64) {
        self.keys.insert(key);
    }

    fn delete(&mut self, key: u64) {
        self.keys.remove(&key);
    }
}

/// Holds at most one key.
#[derive(Default)]
struct OneSlot {
    key: Option<u64>,
}

impl SimpleCacheLike for OneSlot {
    fn get_key(&mut self, key: u64) -> bool {
        self.key == Some(key)
    }

    fn insert_key(&mut self, key: u64) {
        self.key = Some(key);
    }

    fn delete_key(&mut self, key: u64) {
        if self.key == Some(key) {
            self.key = None;
        }
    }
}

#[test]
fn simulate_backfills_misses() {
    let mut cache = SetCache::default();
    let mut src = vec![Event::get(5), Event::get(5)].into_iter();
    let s = simulate(&mut cache, &mut src);
    assert_eq!((s.hits, s.misses, s.inserts), (1, 1, 1));
}

#[test]
fn simulate_explicit_does_not_backfill() {
    let mut cache = SetCache::default();
    let mut src = vec![Event::get(5)].into_iter();
    let s = simulate_explicit(&mut cache, &mut src);
    assert_eq!((s.hits, s.misses, s.inserts), (0, 1, 0));
}

#[test]
fn explicit_inserts_and_deletes() {
    let mut cache = SetCache::default();
    let events = vec![Event::insert(1), Event::get(1), Event::delete(1), Event::get(1)];
    let s = simulate_explicit(&mut cache, &mut events.into_iter());
    assert_eq!((s.hits, s.misses, s.inserts, s.updates), (1, 1, 1, 0));
}

#[test]
fn tally_counts_each_operation() {
    let mut s = HitStats::default();
    tally_event(&mut s, Op::Get, true, true);
    tally_event(&mut s, Op::Get, false, true);
    tally_event(&mut s, Op::Get, false, false);
    tally_event(&mut s, Op::Insert, false, false);
    tally_event(&mut s, Op::Delete, false, true);
    assert_eq!(s, HitStats { hits: 1, misses: 2, inserts: 2, updates: 0 });
    assert_eq!(s.total_ops(), 3);
}

#[test]
fn adapter_drives_a_simple_cache() {
    let mut cache = CachekitAdapter::new(OneSlot::default());
    let mut src = vec![Event::get(1), Event::get(1), Event::get(2), Event::get(1)].into_iter();
    let s = simulate(&mut cache, &mut src);
    assert_eq!((s.hits, s.misses, s.inserts), (1, 3, 3));
    assert_eq!(cache.inner().key, Some(1));
    cache.inner_mut().key = None;
    assert_eq!(cache.into_inner().key, None);
}

#[test]
fn score_with_missing_baseline_is_zero() {
    let r = resistance_score(HitRate { hits: 0, misses: 10 }, HitRate { hits: 5, misses: 5 });
    assert_eq!(r, Ratio { num: 0, den: 1 });
}

#[test]
fn score_is_recovery_over_baseline() {
    // baseline 1/2, recovery 1/4: score 1/2.
    let r = resistance_score(HitRate { hits: 2, misses: 2 }, HitRate { hits: 1, misses: 3 });
    assert_eq!(r.num * 2, r.den);
}

#[test]
fn scan_resistance_of_a_one_slot_cache() {
    let mut cache = SetCache::default();
    let mut base = vec![Event::get(1), Event::get(1), Event::get(1), Event::get(1)].into_iter();
    let mut scan = (100..110).map(Event::get);
    let mut rec = vec![Event::get(1), Event::get(1)].into_iter();
    let r = measure_scan_resistance(&mut cache, &mut base, &mut scan, &mut rec);
    assert_eq!((r.baseline.hits, r.baseline.misses), (3, 1));
    assert_eq!((r.scan.hits, r.scan.misses), (0, 10));
    assert_eq!((r.recovery.hits, r.recovery.misses), (2, 0));
    // (2/2) / (3/4) = 4/3
    assert_eq!(r.resistance_score.num * 3, r.resistance_score.den * 4);
}

#[test]
fn adaptation_finds_first_window() {
    let curve = vec![
        HitRate { hits: 0, misses: 10 },
        HitRate { hits: 3, misses: 7 },
        HitRate { hits: 5, misses: 5 },
        HitRate { hits: 8, misses: 2 },
    ];
    let r = adaptation_of(curve, 10);
    assert_eq!(r.stable, HitRate { hits: 8, misses: 2 });
    assert_eq!(r.ops_to_50_percent, 30);
    assert_eq!(r.ops_to_80_percent, 40);
    assert_eq!(r.hit_rate_curve.len(), 4);
}

#[test]
fn adaptation_of_empty_curve() {
    let r = adaptation_of(Vec::new(), 10);
    assert_eq!(r.stable, HitRate { hits: 0, misses: 0 });
    assert_eq!(r.ops_to_50_percent, 0);
    assert_eq!(r.ops_to_80_percent, 0);
}

#[test]
fn adaptation_over_a_repeating_stream() {
    let mut cache = SetCache::default();
    let mut src = (0..40u64).map(|i| Event::get(i % 5));
    let r = measure_adaptation(&mut cache, &mut src, 10, 10);
    assert_eq!(r.hit_rate_curve.len(), 4);
    assert_eq!(r.hit_rate_curve[0], HitRate { hits: 5, misses: 5 });
    assert_eq!(r.stable, HitRate { hits: 10, misses: 0 });
    assert_eq!(r.ops_to_50_percent, 10);
    assert_eq!(r.ops_to_80_percent, 20);
}

/// A source written outside the library: `n` lookups of key 9, then the end.
struct Repeat {
    n: u32,
}

impl tracekit::EventSource for Repeat {
    fn next_event(&mut self) -> Option<Event> {
        if self.n == 0 {
            return None;
        }
        self.n -= 1;
        Some(Event::get(9))
    }
}

#[test]
fn simulate_drains_a_custom_source() {
    let mut cache = SetCache::default();
    let mut src = Repeat { n: 4 };
    let s = simulate(&mut cache, &mut src);
    assert_eq!((s.hits, s.misses, s.inserts), (3, 1, 1));
    assert_eq!(tracekit::EventSource::size_hint(&src), None);
}

#[test]
fn replay_upto_stops_at_the_limit() {
    let mut cache = SetCache::default();
    let mut src = vec![Event::get(1), Event::get(1), Event::get(2)].into_iter();
    let (s, ended) = replay_upto(&mut cache, &mut src, false, 2);
    assert!(!ended);
    assert_eq!((s.hits, s.misses), (0, 2));
    let (rest, ended) = replay_upto(&mut cache, &mut src, false, 5);
    assert!(ended);
    assert_eq!((rest.hits, rest.misses), (0, 1));
}

#[test]
fn event_list_replays_in_order() {
    let mut cache = SetCache::default();
    let mut src = tracekit::EventList::new(vec![Event::get(5), Event::get(5)]);
    assert_eq!(tracekit::EventSource::size_hint(&src), Some(2));
    let s = simulate(&mut cache, &mut src);
    assert_eq!((s.hits, s.misses, s.inserts), (1, 1, 1));
    assert_eq!(src.remaining(), 0);
    let mut cache = SetCache::default();
    let mut one = tracekit::EventList::new(vec![Event::get(5)]);
    let e = simulate_explicit(&mut cache, &mut one);
    assert_eq!((e.hits, e.misses, e.inserts), (0, 1, 0));
}

#[test]
fn deletes_reach_the_cache() {
    let mut cache = SetCache::default();
    let events = vec![Event::get(3), Event::delete(3), Event::get(3)];
    let s = simulate(&mut cache, &mut tracekit::EventList::new(events));
    assert_eq!((s.hits, s.misses, s.inserts), (0, 2, 2));
    let mut adapter = CachekitAdapter::new(OneSlot::default());
    let events = vec![Event::insert(4), Event::delete(4), Event::get(4)];
    let s = simulate_explicit(&mut adapter, &mut tracekit::EventList::new(events));
    assert_eq!((s.hits, s.misses, s.inserts), (0, 1, 1));
}
