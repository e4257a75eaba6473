//! Catalogs of named workload presets for reproducible benchmark suites.
use vstd::prelude::*;
use crate::workload::{chance_ratio, Chance, Scaled, Workload, WorkloadSpec};

verus! {

/// A catalogued workload: a short identifier, a display name, and the workload.
#[derive(Debug, Clone, Copy)]
pub struct WorkloadCase {
    /// Short identifier (e.g. `uniform`, `zipfian_1.0`).
    pub id: &'static str,
    /// Human-readable name (e.g. `Uniform`, `Zipfian 1.0`).
    pub display_name: &'static str,
    /// The workload, to be combined with a universe and a seed.
    pub workload: Workload,
}

impl WorkloadCase {
    /// The spec of this case over `universe` keys with `seed`.
    pub fn with_params(self, universe: u64, seed: u64) -> (r: WorkloadSpec)
        ensures
            r == (WorkloadSpec { universe, workload: self.workload, seed }),
    {
        WorkloadSpec { universe, workload: self.workload, seed }
    }
}

fn case(id: &'static str, display_name: &'static str, workload: Workload) -> (r: WorkloadCase)
    ensures
        r.id == id,
        r.display_name == display_name,
        r.workload == workload,
{
    WorkloadCase { id, display_name, workload }
}

/// The workloads of [`standard_workloads`], in order.
pub open spec fn standard_kinds() -> Seq<Workload> {
    seq![
        Workload::Uniform,
        Workload::HotSet { hot_fraction: chance_ratio(1, 10), hot_prob: chance_ratio(9, 10) },
        Workload::Scan,
        Workload::Zipfian { exponent: Scaled { millionths: 1_000_000 } },
        Workload::ScrambledZipfian { exponent: Scaled { millionths: 1_000_000 } },
        Workload::Latest { exponent: Scaled { millionths: 800_000 } },
        Workload::ScanResistance { scan_fraction: chance_ratio(1, 5), scan_length: 1000, point_exponent: Scaled { millionths: 1_000_000 } },
        Workload::FlashCrowd { base_exponent: Scaled { millionths: 1_000_000 }, flash_prob: chance_ratio(1, 1000), flash_duration: 1000, flash_keys: 10, flash_intensity: Scaled { millionths: 100_000_000 } },
    ]
}

/// Standard suite: a focused set that tells policies apart.
pub fn standard_workloads() -> (r: Vec<WorkloadCase>)
    ensures
        r@.len() == 8,
        forall|i: int| 0 <= i < r@.len() ==> r@[i].workload == #[trigger] standard_kinds()[i],
        r@[0].id@ == "uniform"@,
        r@[1].id@ == "hotset_90_10"@,
        r@[2].id@ == "scan"@,
        r@[3].id@ == "zipfian_1.0"@,
        r@[4].id@ == "scrambled_zipf"@,
        r@[5].id@ == "latest"@,
        r@[6].id@ == "scan_resistance"@,
        r@[7].id@ == "flash_crowd"@,
{
    let mut r: Vec<WorkloadCase> = Vec::new();
    r.push(case("uniform", "Uniform", Workload::Uniform));
    r.push(case("hotset_90_10", "HotSet 90/10", Workload::HotSet { hot_fraction: Chance::ratio(1, 10), hot_prob: Chance::ratio(9, 10) }));
    r.push(case("scan", "Scan", Workload::Scan));
    r.push(case("zipfian_1.0", "Zipfian 1.0", Workload::Zipfian { exponent: Scaled { millionths: 1_000_000 } }));
    r.push(case("scrambled_zipf", "Scrambled Zipfian", Workload::ScrambledZipfian { exponent: Scaled { millionths: 1_000_000 } }));
    r.push(case("latest", "Latest", Workload::Latest { exponent: Scaled { millionths: 800_000 } }));
    r.push(case("scan_resistance", "Scan Resistance", Workload::ScanResistance { scan_fraction: Chance::ratio(1, 5), scan_length: 1000, point_exponent: Scaled { millionths: 1_000_000 } }));
    r.push(case("flash_crowd", "Flash Crowd", Workload::FlashCrowd { base_exponent: Scaled { millionths: 1_000_000 }, flash_prob: Chance::ratio(1, 1000), flash_duration: 1000, flash_keys: 10, flash_intensity: Scaled { millionths: 100_000_000 } }));
    assert(r@.map_values(|c: WorkloadCase| c.workload) =~= standard_kinds());
    r
}

/// The workloads of [`extended_workloads`], in order.
pub open spec fn extended_kinds() -> Seq<Workload> {
    seq![
        Workload::Uniform,
        Workload::HotSet { hot_fraction: chance_ratio(1, 10), hot_prob: chance_ratio(9, 10) },
        Workload::Scan,
        Workload::Zipfian { exponent: Scaled { millionths: 1_000_000 } },
        Workload::Zipfian { exponent: Scaled { millionths: 800_000 } },
        Workload::ScrambledZipfian { exponent: Scaled { millionths: 1_000_000 } },
        Workload::Latest { exponent: Scaled { millionths: 800_000 } },
        Workload::ShiftingHotspot { shift_interval: 10_000, hot_fraction: chance_ratio(1, 10) },
        Workload::Exponential { lambda: Scaled { millionths: 50_000 } },
        Workload::Pareto { shape: Scaled { millionths: 1_500_000 } },
        Workload::ScanResistance { scan_fraction: chance_ratio(1, 5), scan_length: 1000, point_exponent: Scaled { millionths: 1_000_000 } },
        Workload::Correlated { stride: 1, burst_len: 8, burst_prob: chance_ratio(3, 10) },
        Workload::Loop { working_set_size: 512 },
        Workload::WorkingSetChurn { working_set_size: 2048, churn_rate: chance_ratio(1, 1000) },
        Workload::Bursty { hurst: Scaled { millionths: 800_000 }, base_exponent: Scaled { millionths: 1_000_000 } },
        Workload::FlashCrowd { base_exponent: Scaled { millionths: 1_000_000 }, flash_prob: chance_ratio(1, 1000), flash_duration: 1000, flash_keys: 10, flash_intensity: Scaled { millionths: 100_000_000 } },
        Workload::Mixture,
    ]
}

/// Extended suite: every workload kind.
pub fn extended_workloads() -> (r: Vec<WorkloadCase>)
    ensures
        r@.len() == 17,
        forall|i: int| 0 <= i < r@.len() ==> r@[i].workload == #[trigger] extended_kinds()[i],
        r@[0].id@ == "uniform"@,
        r@[1].id@ == "hotset_90_10"@,
        r@[2].id@ == "scan"@,
        r@[3].id@ == "zipfian_1.0"@,
        r@[4].id@ == "zipfian_0.8"@,
        r@[5].id@ == "scrambled_zipf"@,
        r@[6].id@ == "latest"@,
        r@[7].id@ == "shifting_hotspot"@,
        r@[8].id@ == "exponential"@,
        r@[9].id@ == "pareto"@,
        r@[10].id@ == "scan_resistance"@,
        r@[11].id@ == "correlated"@,
        r@[12].id@ == "loop_small"@,
        r@[13].id@ == "working_set_churn"@,
        r@[14].id@ == "bursty"@,
        r@[15].id@ == "flash_crowd"@,
        r@[16].id@ == "mixture"@,
{
    let mut r: Vec<WorkloadCase> = Vec::new();
    r.push(case("uniform", "Uniform", Workload::Uniform));
    r.push(case("hotset_90_10", "HotSet 90/10", Workload::HotSet { hot_fraction: Chance::ratio(1, 10), hot_prob: Chance::ratio(9, 10) }));
    r.push(case("scan", "Scan", Workload::Scan));
    r.push(case("zipfian_1.0", "Zipfian 1.0", Workload::Zipfian { exponent: Scaled { millionths: 1_000_000 } }));
    r.push(case("zipfian_0.8", "Zipfian 0.8", Workload::Zipfian { exponent: Scaled { millionths: 800_000 } }));
    r.push(case("scrambled_zipf", "Scrambled Zipfian", Workload::ScrambledZipfian { exponent: Scaled { millionths: 1_000_000 } }));
    r.push(case("latest", "Latest", Workload::Latest { exponent: Scaled { millionths: 800_000 } }));
    r.push(case("shifting_hotspot", "Shifting Hotspot", Workload::ShiftingHotspot { shift_interval: 10_000, hot_fraction: Chance::ratio(1, 10) }));
    r.push(case("exponential", "Exponential", Workload::Exponential { lambda: Scaled { millionths: 50_000 } }));
    r.push(case("pareto", "Pareto", Workload::Pareto { shape: Scaled { millionths: 1_500_000 } }));
    r.push(case("scan_resistance", "Scan Resistance", Workload::ScanResistance { scan_fraction: Chance::ratio(1, 5), scan_length: 1000, point_exponent: Scaled { millionths: 1_000_000 } }));
    r.push(case("correlated", "Correlated", Workload::Correlated { stride: 1, burst_len: 8, burst_prob: Chance::ratio(3, 10) }));
    r.push(case("loop_small", "Loop (small)", Workload::Loop { working_set_size: 512 }));
    r.push(case("working_set_churn", "Working Set Churn", Workload::WorkingSetChurn { working_set_size: 2048, churn_rate: Chance::ratio(1, 1000) }));
    r.push(case("bursty", "Bursty", Workload::Bursty { hurst: Scaled { millionths: 800_000 }, base_exponent: Scaled { millionths: 1_000_000 } }));
    r.push(case("flash_crowd", "Flash Crowd", Workload::FlashCrowd { base_exponent: Scaled { millionths: 1_000_000 }, flash_prob: Chance::ratio(1, 1000), flash_duration: 1000, flash_keys: 10, flash_intensity: Scaled { millionths: 100_000_000 } }));
    r.push(case("mixture", "Mixture", Workload::Mixture));
    assert(r@.map_values(|c: WorkloadCase| c.workload) =~= extended_kinds());
    r
}

/// The workloads of [`standard_workload_suite`], in order.
pub open spec fn suite_kinds() -> Seq<Workload> {
    seq![
        Workload::Uniform,
        Workload::Zipfian { exponent: Scaled { millionths: 1_000_000 } },
        Workload::Zipfian { exponent: Scaled { millionths: 800_000 } },
        Workload::HotSet { hot_fraction: chance_ratio(1, 10), hot_prob: chance_ratio(9, 10) },
        Workload::Scan,
        Workload::ScanResistance { scan_fraction: chance_ratio(1, 5), scan_length: 1000, point_exponent: Scaled { millionths: 1_000_000 } },
        Workload::Loop { working_set_size: 512 },
        Workload::ShiftingHotspot { shift_interval: 10_000, hot_fraction: chance_ratio(1, 10) },
        Workload::FlashCrowd { base_exponent: Scaled { millionths: 1_000_000 }, flash_prob: chance_ratio(1, 1000), flash_duration: 1000, flash_keys: 10, flash_intensity: Scaled { millionths: 100_000_000 } },
    ]
}

/// Standard workload suite for comparing policies, each named and set over
/// `universe` keys with `seed`.
pub fn standard_workload_suite(universe: u64, seed: u64) -> (r: Vec<(&'static str, WorkloadSpec)>)
    ensures
        r@.len() == 9,
        forall|i: int| 0 <= i < r@.len() ==> #[trigger] r@[i].1 == (WorkloadSpec { universe, workload: suite_kinds()[i], seed }),
        r@[0].0@ == "uniform"@,
        r@[1].0@ == "zipfian_1.0"@,
        r@[2].0@ == "zipfian_0.8"@,
        r@[3].0@ == "hotset_90_10"@,
        r@[4].0@ == "scan"@,
        r@[5].0@ == "scan_resistance"@,
        r@[6].0@ == "loop_small"@,
        r@[7].0@ == "shifting_hotspot"@,
        r@[8].0@ == "flash_crowd"@,
{
    let mut r: Vec<(&'static str, WorkloadSpec)> = Vec::new();
    r.push(("uniform", WorkloadSpec { universe, workload: Workload::Uniform, seed }));
    r.push(("zipfian_1.0", WorkloadSpec { universe, workload: Workload::Zipfian { exponent: Scaled { millionths: 1_000_000 } }, seed }));
    r.push(("zipfian_0.8", WorkloadSpec { universe, workload: Workload::Zipfian { exponent: Scaled { millionths: 800_000 } }, seed }));
    r.push(("hotset_90_10", WorkloadSpec { universe, workload: Workload::HotSet { hot_fraction: Chance::ratio(1, 10), hot_prob: Chance::ratio(9, 10) }, seed }));
    r.push(("scan", WorkloadSpec { universe, workload: Workload::Scan, seed }));
    r.push(("scan_resistance", WorkloadSpec { universe, workload: Workload::ScanResistance { scan_fraction: Chance::ratio(1, 5), scan_length: 1000, point_exponent: Scaled { millionths: 1_000_000 } }, seed }));
    r.push(("loop_small", WorkloadSpec { universe, workload: Workload::Loop { working_set_size: 512 }, seed }));
    r.push(("shifting_hotspot", WorkloadSpec { universe, workload: Workload::ShiftingHotspot { shift_interval: 10_000, hot_fraction: Chance::ratio(1, 10) }, seed }));
    r.push(("flash_crowd", WorkloadSpec { universe, workload: Workload::FlashCrowd { base_exponent: Scaled { millionths: 1_000_000 }, flash_prob: Chance::ratio(1, 1000), flash_duration: 1000, flash_keys: 10, flash_intensity: Scaled { millionths: 100_000_000 } }, seed }));
    assert(r@.map_values(|p: (&'static str, WorkloadSpec)| p.1.workload) =~= suite_kinds());
    r
}

} // verus!
