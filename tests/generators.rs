use rand::rngs::SmallRng;
use rand_distr::Distribution;
use tracekit::registry::{extended_workloads, standard_workload_suite, standard_workloads};
use tracekit::workload::{
    bursty_active, fnv_hash, hot_region_size, hotset_key, mixture_rank, shifting_key, window_base, Chance, NoSkew,
    Scaled, SkewSampler,
};
use tracekit::{BoundedGenerator, Event, EventSource, Workload, WorkloadGenerator, WorkloadSpec};

struct ZipfRanks(rand_distr::Zipf<f64>);

impl SkewSampler for ZipfRanks {
    fn draw(&mut self, rng: &mut SmallRng) -> u64 {
        self.0.sample(rng) as u64
    }
}

fn zipf(universe: u64, exponent: f64) -> ZipfRanks {
    ZipfRanks(rand_distr::Zipf::new(universe as f64, exponent).unwrap())
}

fn keys<S: SkewSampler>(g: &mut WorkloadGenerator<S>, n: usize) -> Vec<u64> {
    (0..n).map(|_| g.next_key()).collect()
}

#[test]
fn same_seed_same_keys_uniform() {
    let mut a = WorkloadGenerator::new(1000, Workload::Uniform, 42, NoSkew);
    let mut b = WorkloadGenerator::new(1000, Workload::Uniform, 42, NoSkew);
    assert_eq!(keys(&mut a, 500), keys(&mut b, 500));
}

#[test]
fn same_seed_same_keys_zipfian() {
    let w = Workload::Zipfian { exponent: Scaled { millionths: 1_000_000 } };
    let mut a = WorkloadGenerator::new(1000, w, 7, zipf(1000, 1.0));
    let mut b = WorkloadGenerator::new(1000, w, 7, zipf(1000, 1.0));
    assert_eq!(keys(&mut a, 500), keys(&mut b, 500));
}

#[test]
fn different_seeds_differ() {
    let mut a = WorkloadGenerator::new(1_000_000, Workload::Uniform, 1, NoSkew);
    let mut b = WorkloadGenerator::new(1_000_000, Workload::Uniform, 2, NoSkew);
    assert_ne!(keys(&mut a, 50), keys(&mut b, 50));
}

#[test]
fn every_catalogued_workload_stays_in_range() {
    for case in extended_workloads() {
        let sampler = zipf(1000, 1.0);
        let mut g = WorkloadGenerator::new(1000, case.workload, 3, sampler);
        for _ in 0..2000 {
            assert!(g.next_key() < 1000, "{}", case.id);
        }
    }
}

#[test]
fn zero_universe_is_clamped_to_one() {
    let mut g = WorkloadGenerator::new(0, Workload::Uniform, 9, NoSkew);
    assert_eq!(keys(&mut g, 10), vec![0; 10]);
}

#[test]
fn scan_is_periodic() {
    let mut g = WorkloadGenerator::new(4, Workload::Scan, 1, NoSkew);
    assert_eq!(keys(&mut g, 10), vec![0, 1, 2, 3, 0, 1, 2, 3, 0, 1]);
}

#[test]
fn loop_is_periodic_whatever_the_universe() {
    let mut g = WorkloadGenerator::new(1_000_000, Workload::Loop { working_set_size: 3 }, 1, NoSkew);
    assert_eq!(keys(&mut g, 7), vec![0, 1, 2, 0, 1, 2, 0]);
    let mut z = WorkloadGenerator::new(10, Workload::Loop { working_set_size: 0 }, 1, NoSkew);
    assert_eq!(keys(&mut z, 3), vec![0, 0, 0]);
}

#[test]
fn scrambled_keys_are_hashed_ranks() {
    let w = Workload::ScrambledZipfian { exponent: Scaled { millionths: 1_000_000 } };
    let mut g = WorkloadGenerator::new(1000, w, 5, zipf(1000, 1.0));
    for _ in 0..200 {
        let k = g.next_key();
        assert!((0..1000u64).any(|r| fnv_hash(r) % 1000 == k));
    }
}

#[test]
fn fnv_of_known_keys() {
    assert_eq!(fnv_hash(0), 12161962213042174405);
    assert_eq!(fnv_hash(1), 9929646806074584996);
    assert_eq!(fnv_hash(12345), 16653943660658674764);
}

#[test]
fn chance_thresholds() {
    assert_eq!(Chance::ratio(9, 10).threshold, 8106479329266893);
    assert_eq!(Chance::ratio(1, 10).threshold, 900719925474100);
    assert_eq!(Chance::ratio(4, 5).threshold, 7205759403792794);
    assert_eq!(Chance::ratio(0, 3).threshold, 0);
    assert_eq!(Chance::ratio(3, 3).threshold, 1 << 53);
    assert!(Chance::ratio(1, 2).hit_by(0));
    assert!(!Chance::ratio(1, 2).hit_by(u64::MAX));
}

#[test]
fn hot_region_sizes() {
    assert_eq!(hot_region_size(100, Chance::ratio(1, 10)), 10);
    assert_eq!(hot_region_size(100, Chance::ratio(0, 10)), 1);
    assert_eq!(hot_region_size(100, Chance { threshold: u64::MAX }), 100);
    assert_eq!(hot_region_size(3, Chance::ratio(1, 2)), 2);
}

#[test]
fn hot_set_prefers_the_hot_region() {
    let w = Workload::HotSet { hot_fraction: Chance::ratio(1, 10), hot_prob: Chance::ratio(9, 10) };
    let mut g = WorkloadGenerator::new(1000, w, 11, NoSkew);
    let hot = keys(&mut g, 10_000).into_iter().filter(|&k| k < 100).count();
    assert!(hot > 8500 && hot < 9500, "{}", hot);
}

#[test]
fn latest_follows_inserts() {
    let w = Workload::Latest { exponent: Scaled { millionths: 1_000_000 } };
    let mut g = WorkloadGenerator::new(100, w, 5, zipf(100, 1.0));
    for _ in 0..5 {
        g.record_insert();
    }
    for _ in 0..100 {
        let k = g.next_key();
        assert!(k < 100);
    }
}

#[test]
fn bounded_generator_yields_exactly_n() {
    let spec = WorkloadSpec { universe: 100, workload: Workload::Scan, seed: 1 };
    let mut src = BoundedGenerator::new(spec.generator(NoSkew), 3);
    assert_eq!(src.size_hint(), Some(3));
    assert_eq!(src.next_event(), Some(Event::get(0)));
    assert_eq!(src.size_hint(), Some(2));
    assert_eq!(src.next_event(), Some(Event::get(1)));
    assert_eq!(src.next_event(), Some(Event::get(2)));
    assert_eq!(src.size_hint(), Some(0));
    assert_eq!(src.next_event(), None);
    assert_eq!(src.next_event(), None);
    assert_eq!(src.remaining(), 0);
    assert_eq!(src.total(), 3);
}

#[test]
fn unbounded_generator_has_no_size_hint() {
    let mut g = WorkloadGenerator::new(10, Workload::Scan, 1, NoSkew);
    assert_eq!(g.size_hint(), None);
    assert_eq!(g.next_event(), Some(Event::get(0)));
}

#[test]
fn scan_resistance_scans_are_sequential() {
    let w = Workload::ScanResistance {
        scan_fraction: Chance::ratio(1, 1),
        scan_length: 5,
        point_exponent: Scaled { millionths: 1_000_000 },
    };
    let mut g = WorkloadGenerator::new(1000, w, 2, zipf(1000, 1.0));
    let ks = keys(&mut g, 5);
    for i in 1..5 {
        assert_eq!(ks[i], (ks[0] + i as u64) % 1000);
    }
}

#[test]
fn correlated_bursts_follow_the_stride() {
    let w = Workload::Correlated { stride: 3, burst_len: 4, burst_prob: Chance::ratio(1, 1) };
    let mut g = WorkloadGenerator::new(1000, w, 2, NoSkew);
    let ks = keys(&mut g, 4);
    for i in 1..4 {
        assert_eq!(ks[i], (ks[0] + 3 * i as u64) % 1000);
    }
}

#[test]
fn catalogues_have_expected_sizes() {
    assert_eq!(standard_workloads().len(), 8);
    assert_eq!(extended_workloads().len(), 17);
    let suite = standard_workload_suite(1234, 9);
    assert_eq!(suite.len(), 9);
    assert_eq!(suite[0].0, "uniform");
    assert!(suite.iter().all(|(_, s)| s.universe == 1234 && s.seed == 9));
    let case = standard_workloads()[2];
    assert_eq!(case.id, "scan");
    let spec = case.with_params(10, 4);
    assert_eq!(spec, WorkloadSpec { universe: 10, workload: Workload::Scan, seed: 4 });
}

#[test]
fn distribution_parameters_are_checked() {
    assert!(!Workload::Zipfian { exponent: Scaled { millionths: 0 } }.is_valid());
    assert!(!Workload::Pareto { shape: Scaled { millionths: 0 } }.is_valid());
    assert!(Workload::Zipfian { exponent: Scaled { millionths: 1 } }.is_valid());
    assert!(Workload::Exponential { lambda: Scaled { millionths: 0 } }.is_valid());
    assert!(Workload::Uniform.is_valid());
}

#[test]
fn hotset_key_follows_its_draws() {
    let tenth = Chance::ratio(1, 10);
    // certain: the pick lands in the hot region of 10 keys
    assert_eq!(hotset_key(100, tenth, Chance::ratio(1, 1), u64::MAX, 1234), 4);
    // never: the pick lands in the cold region [10, 100)
    assert_eq!(hotset_key(100, tenth, Chance::ratio(0, 1), 0, 1234), 10 + 1234 % 90);
}

#[test]
fn shifting_key_moves_with_operations() {
    let tenth = Chance::ratio(1, 10);
    // 25 operations with interval 10: two shifts of 10 keys, base 20.
    assert_eq!(shifting_key(100, 10, tenth, 25, 0, 7), 27);
    // coin above 80%: uniform pick
    assert_eq!(shifting_key(100, 10, tenth, 25, u64::MAX, 1234), 34);
}

#[test]
fn window_base_and_burst_state() {
    assert_eq!(window_base(100, 10, Chance::ratio(0, 1), 5, 0), 5);
    assert_eq!(window_base(100, 10, Chance::ratio(1, 1), 5, 0), 6);
    assert_eq!(window_base(100, 10, Chance::ratio(1, 1), 90, 0), 0);
    let hurst = Scaled { millionths: 1_000_000 };
    assert!(bursty_active(hurst, true, u64::MAX));
    assert!(!bursty_active(hurst, false, 0));
}

#[test]
fn mixture_ranks() {
    assert_eq!(mixture_rank(0), 1000);
    assert_eq!(mixture_rank(u64::MAX), 1);
    assert_eq!(mixture_rank(1u64 << 63), 2);
}

#[test]
fn cloned_generator_continues_identically() {
    let mut a = WorkloadGenerator::new(1000, Workload::Uniform, 3, NoSkew);
    keys(&mut a, 10);
    let mut b = a.clone();
    assert_eq!(keys(&mut a, 20), keys(&mut b, 20));
}
