//! Workload generators: deterministic key streams for cache benchmarking.
//!
//! Every workload is a small state machine driven by one pseudo-random
//! stream, seeded once.  Probabilities and fractions are fixed-point values
//! out of 2^53: a draw `x` of the stream hits a [`Chance`] `c` exactly when
//! the top 53 bits of `x` are below `c.threshold`, which is how a uniform
//! draw in `[0, 1)` is compared with a probability at double precision.
use vstd::prelude::*;
use rand::rngs::SmallRng;
use crate::event::{Event, plain_event, Op};
use crate::source::EventSource;

verus! {

/// 2^53, the denominator of a [`Chance`].
pub const CHANCE_ONE: u64 = 9007199254740992;

/// 2^52, half of [`CHANCE_ONE`].
pub const CHANCE_HALF: u64 = 4503599627370496;

/// A probability or fraction, as `threshold / 2^53`.
///
/// Thresholds above 2^53 mean certainty, like a probability above one.
#[derive(Debug, Clone, Copy, PartialEq, Eq, Structural)]
pub struct Chance {
    pub threshold: u64,
}

/// The smallest integer not below `n / d`.
pub open spec fn ceil_div(n: int, d: int) -> int {
    (n + d - 1) / d
}

/// The fraction `num / den` as a [`Chance`], rounded up.
pub open spec fn chance_ratio(num: int, den: int) -> Chance {
    Chance { threshold: ceil_div(num * CHANCE_ONE, den) as u64 }
}

impl Chance {
    /// The fraction `num / den`, rounded up to the next multiple of 2^-53.
    pub fn ratio(num: u64, den: u64) -> (r: Chance)
        requires
            0 < den,
            num <= den,
        ensures
            r == chance_ratio(num as int, den as int),
            r.threshold == ceil_div(num * CHANCE_ONE, den as int),
            r.threshold <= CHANCE_ONE,
    {
        fraction_threshold(num as u128, den as u128)
    }

    /// Whether a raw 64-bit draw lands below this probability.
    pub fn hit_by(self, draw: u64) -> (r: bool)
        ensures
            r == ((draw >> 11u64) < self.threshold),
    {
        (draw >> 11u64) < self.threshold
    }
}

/// A nonnegative parameter with six decimal places: `millionths / 10^6`.
///
/// Exponents, rates and multipliers of the workloads are given this way.
#[derive(Debug, Clone, Copy, PartialEq, Eq, Structural)]
pub struct Scaled {
    pub millionths: u64,
}

/// One byte of `key`, least significant first, as `to_le_bytes` lists them.
pub open spec fn byte_of(key: u64, i: nat) -> u64 {
    (key >> ((8 * i) as u64)) & 0xffu64
}

/// FNV-1a offset basis.
pub const FNV_OFFSET: u64 = 0xcbf29ce484222325;

/// FNV-1a prime.
pub const FNV_PRIME: u64 = 0x100000001b3;

/// One FNV-1a round: exclusive-or the byte in, then multiply modulo 2^64.
pub open spec fn fnv_round(h: u64, b: u64) -> u64 {
    ((h ^ b) as int * FNV_PRIME as int % 0x1_0000_0000_0000_0000int) as u64
}

/// FNV-1a over the first `n` little-endian bytes of `key`.
pub open spec fn fnv_prefix(key: u64, n: nat) -> u64
    decreases n,
{
    if n == 0 {
        FNV_OFFSET
    } else {
        fnv_round(fnv_prefix(key, (n - 1) as nat), byte_of(key, (n - 1) as nat))
    }
}

/// FNV-1a hash of the eight little-endian bytes of `key`.
pub open spec fn fnv_spec(key: u64) -> u64 {
    fnv_prefix(key, 8)
}

/// FNV-1a hash for scrambling keys.
pub fn fnv_hash(key: u64) -> (r: u64)
    ensures
        r == fnv_spec(key),
{
    let mut hash: u64 = FNV_OFFSET;
    let mut i: u64 = 0;
    while i < 8
        invariant
            i <= 8,
            hash == fnv_prefix(key, i as nat),
        decreases 8 - i,
    {
        let b: u64 = (key >> (8 * i)) & 0xff;
        hash = (hash ^ b).wrapping_mul(FNV_PRIME);
        i = i + 1;
    }
    hash
}

/// The workload kinds, each with its own parameters.
#[derive(Debug, Clone, Copy, PartialEq, Eq, Structural)]
pub enum Workload {
    /// Uniform random keys in `[0, universe)`.
    Uniform,
    /// Hot/cold split: a fraction of the space is hot and drawn with `hot_prob`.
    HotSet { hot_fraction: Chance, hot_prob: Chance },
    /// Sequential scan in `[0, universe)`.
    Scan,
    /// Zipfian ranks: `exponent` controls skew.
    Zipfian { exponent: Scaled },
    /// Zipfian ranks scrambled by FNV-1a, destroying sequential locality.
    ScrambledZipfian { exponent: Scaled },
    /// Zipfian offsets backward from the most recent insert.
    Latest { exponent: Scaled },
    /// A hot region that moves by its own size every `shift_interval` operations.
    ShiftingHotspot { shift_interval: u64, hot_fraction: Chance },
    /// Exponentially decaying popularity with decay rate `lambda`.
    Exponential { lambda: Scaled },
    /// Pareto-distributed popularity with the given `shape`.
    Pareto { shape: Scaled },
    /// Zipfian point lookups interrupted by sequential scans.
    ScanResistance { scan_fraction: Chance, scan_length: u64, point_exponent: Scaled },
    /// Bursts of `burst_len` keys spaced by `stride`, started with `burst_prob`.
    Correlated { stride: u64, burst_len: u64, burst_prob: Chance },
    /// Cyclic access over `[0, working_set_size)`.
    Loop { working_set_size: u64 },
    /// A window of `working_set_size` keys whose base advances with `churn_rate`.
    WorkingSetChurn { working_set_size: u64, churn_rate: Chance },
    /// Burst and idle periods whose persistence follows the Hurst parameter.
    Bursty { hurst: Scaled, base_exponent: Scaled },
    /// Sudden floods of traffic on a few keys over a Zipfian background.
    FlashCrowd {
        base_exponent: Scaled,
        flash_prob: Chance,
        flash_duration: u64,
        flash_keys: u64,
        flash_intensity: Scaled,
    },
    /// 70% rank-based skew, 20% sequential scan, 10% uniform.
    Mixture,
}

/// Whether the distribution parameters of `w` are valid: every Zipfian
/// exponent and the Pareto shape must be positive.
pub open spec fn params_valid(w: Workload) -> bool {
    match w {
        Workload::Zipfian { exponent } => exponent.millionths > 0,
        Workload::ScrambledZipfian { exponent } => exponent.millionths > 0,
        Workload::Latest { exponent } => exponent.millionths > 0,
        Workload::Pareto { shape } => shape.millionths > 0,
        Workload::ScanResistance { point_exponent, .. } => point_exponent.millionths > 0,
        Workload::Bursty { base_exponent, .. } => base_exponent.millionths > 0,
        Workload::FlashCrowd { base_exponent, .. } => base_exponent.millionths > 0,
        _ => true,
    }
}

impl Workload {
    /// Whether the distribution parameters are valid; a generator is made
    /// only for valid ones.
    pub fn is_valid(&self) -> (r: bool)
        ensures
            r == params_valid(*self),
    {
        match *self {
            Workload::Zipfian { exponent } => exponent.millionths > 0,
            Workload::ScrambledZipfian { exponent } => exponent.millionths > 0,
            Workload::Latest { exponent } => exponent.millionths > 0,
            Workload::Pareto { shape } => shape.millionths > 0,
            Workload::ScanResistance { point_exponent, .. } => point_exponent.millionths > 0,
            Workload::Bursty { base_exponent, .. } => base_exponent.millionths > 0,
            Workload::FlashCrowd { base_exponent, .. } => base_exponent.millionths > 0,
            _ => true,
        }
    }
}

/// A workload with its key universe and seed: it fixes the generator's behaviour.
#[derive(Debug, Clone, Copy, PartialEq, Eq, Structural)]
pub struct WorkloadSpec {
    pub universe: u64,
    pub workload: Workload,
    pub seed: u64,
}

/// The mutable state of whichever workload is active.
#[derive(Debug, Clone, Copy, PartialEq, Eq, Structural)]
pub enum WorkloadState {
    /// Workloads whose draws need no memory beyond the operation count.
    Memoryless,
    /// Scan cursor (Scan, and the scan part of Mixture).
    Cursor { pos: u64 },
    /// Loop cursor, reduced modulo the working set on use.
    LoopCursor { pos: u64 },
    /// ScanResistance: a scan in progress with the operations it has left.
    ScanPhase { in_scan: bool, remaining: u64, start: u64 },
    /// Correlated: burst operations left, and the key the burst began at.
    Burst { remaining: u64, start: u64 },
    /// WorkingSetChurn: base of the current window.
    Window { base: u64 },
    /// Bursty: whether a burst is active.
    Bursting { active: bool },
    /// FlashCrowd: a flash in progress, its operations left and its first key.
    Flash { active: bool, remaining: u64, base: u64 },
}

/// The state a fresh generator starts from for the given workload.
pub open spec fn initial_state(w: Workload) -> WorkloadState {
    match w {
        Workload::Scan | Workload::Mixture => WorkloadState::Cursor { pos: 0 },
        Workload::Loop { .. } => WorkloadState::LoopCursor { pos: 0 },
        Workload::ScanResistance { .. } => WorkloadState::ScanPhase { in_scan: false, remaining: 0, start: 0 },
        Workload::Correlated { .. } => WorkloadState::Burst { remaining: 0, start: 0 },
        Workload::WorkingSetChurn { .. } => WorkloadState::Window { base: 0 },
        Workload::Bursty { .. } => WorkloadState::Bursting { active: false },
        Workload::FlashCrowd { .. } => WorkloadState::Flash { active: false, remaining: 0, base: 0 },
        _ => WorkloadState::Memoryless,
    }
}

/// Length of a scan of the ScanResistance workload (at least one key).
pub open spec fn scan_len(len: u64) -> u64 {
    if len == 0 { 1 } else { len }
}

/// Whether state `s` belongs to workload `w` and is consistent with universe `u`.
pub open spec fn state_fits(w: Workload, s: WorkloadState, u: u64) -> bool {
    match w {
        Workload::Scan | Workload::Mixture => s matches WorkloadState::Cursor { pos } && pos < u,
        Workload::Loop { .. } => s is LoopCursor,
        Workload::ScanResistance { scan_length, .. } => match s {
            WorkloadState::ScanPhase { in_scan, remaining, start } =>
                in_scan ==> 1 <= remaining <= scan_len(scan_length),
            _ => false,
        },
        Workload::Correlated { burst_len, .. } => match s {
            WorkloadState::Burst { remaining, start } => remaining <= burst_len,
            _ => false,
        },
        Workload::WorkingSetChurn { .. } => s is Window,
        Workload::Bursty { .. } => s is Bursting,
        Workload::FlashCrowd { .. } => match s {
            WorkloadState::Flash { active, remaining, base } => active ==> remaining >= 1,
            _ => false,
        },
        _ => s is Memoryless,
    }
}

/// What a generator is, apart from its random stream and sampler.
pub struct GeneratorModel {
    pub universe: u64,
    pub workload: Workload,
    pub operation_count: u64,
    pub insert_counter: u64,
    pub state: WorkloadState,
}

#[verifier::external_type_specification]
#[verifier::external_body]
pub struct ExSmallRng(SmallRng);

/// Relies on rand's derived `Clone` for `SmallRng`: a copy of the stream's
/// state.
pub assume_specification[ <SmallRng as Clone>::clone ](rng: &SmallRng) -> SmallRng;

/// Relies on rand's `SeedableRng::seed_from_u64` for `SmallRng`: a fresh
/// pseudo-random stream started from the seed.
#[verifier::external_body]
fn seeded_rng(seed: u64) -> (r: SmallRng) {
    <SmallRng as rand::SeedableRng>::seed_from_u64(seed)
}

/// Relies on rand's `Rng::random::<u64>`: the next 64 bits of the stream.
#[verifier::external_body]
fn next_draw(rng: &mut SmallRng) -> (r: u64) {
    rand::Rng::random::<u64>(rng)
}

/// Source of the skewed samples (Zipfian, exponential, Pareto) that a workload
/// draws from the generator's own stream.
///
/// A sample is handed back as an integer: a 1-based rank for the Zipfian
/// kinds, a key offset for the exponential and Pareto kinds.
pub trait SkewSampler {
    /// Draw one sample, consuming values of `rng`.
    fn draw(&mut self, rng: &mut SmallRng) -> u64;
}

/// Sampler for workloads that draw no skewed samples; it always yields zero.
#[derive(Debug, Clone, Copy)]
pub struct NoSkew;

impl SkewSampler for NoSkew {
    fn draw(&mut self, rng: &mut SmallRng) -> u64 {
        0
    }
}

/// A 1-based rank turned into a key: one less, at most `u - 1`.
pub open spec fn rank_key(rank: u64, u: u64) -> u64 {
    let r = if rank == 0 { 0 } else { (rank - 1) as u64 };
    if r < u - 1 { r } else { (u - 1) as u64 }
}

fn rank_to_key(rank: u64, u: u64) -> (r: u64)
    requires
        u >= 1,
    ensures
        r == rank_key(rank, u),
        r < u,
{
    let r = rank.saturating_sub(1);
    if r < u - 1 { r } else { u - 1 }
}

/// An offset turned into a key: at most `u - 1`.
pub open spec fn offset_key(v: u64, u: u64) -> u64 {
    if v < u - 1 { v } else { (u - 1) as u64 }
}

fn offset_to_key(v: u64, u: u64) -> (r: u64)
    requires
        u >= 1,
    ensures
        r == offset_key(v, u),
        r < u,
{
    if v < u - 1 { v } else { u - 1 }
}

/// Size of a hot region: `u * frac` rounded to nearest, within `[1, u]`.
pub open spec fn hot_size(u: u64, frac: Chance) -> u64 {
    let h = (u * frac.threshold + CHANCE_HALF) / (CHANCE_ONE as int);
    if h < 1 { 1 } else if h > u { u } else { h as u64 }
}

/// Size of the hot region of `u` keys for fraction `frac`.
pub fn hot_region_size(u: u64, frac: Chance) -> (r: u64)
    requires
        u >= 1,
    ensures
        r == hot_size(u, frac),
        1 <= r <= u,
{
    assert(u * frac.threshold <= 0xffff_ffff_ffff_ffff * 0xffff_ffff_ffff_ffff) by (nonlinear_arith)
        requires
            u <= 0xffff_ffff_ffff_ffffu64,
            frac.threshold <= 0xffff_ffff_ffff_ffffu64,
    ;
    let p: u128 = u as u128 * frac.threshold as u128;
    let h: u128 = (p + CHANCE_HALF as u128) / CHANCE_ONE as u128;
    if h < 1 {
        1
    } else if h > u as u128 {
        u
    } else {
        h as u64
    }
}

/// `(a + b) mod u`, computed without overflow.
pub fn add_mod(a: u64, b: u64, u: u64) -> (r: u64)
    requires
        u >= 1,
    ensures
        r == (a + b) % (u as int),
{
    (((a as u128) + (b as u128)) % (u as u128)) as u64
}

/// `(a + b * c) mod u`, computed without overflow.
pub fn add_mul_mod(a: u64, b: u64, c: u64, u: u64) -> (r: u64)
    requires
        u >= 1,
    ensures
        r == (a + b * c) % (u as int),
{
    assert(b * c <= 0xffff_ffff_ffff_ffff * 0xffff_ffff_ffff_ffff) by (nonlinear_arith)
        requires
            b <= 0xffff_ffff_ffff_ffffu64,
            c <= 0xffff_ffff_ffff_ffffu64,
    ;
    let m: u128 = b as u128 * c as u128;
    (((a as u128) + m) % (u as u128)) as u64
}

/// `threshold` of `num / den`, rounded up, for `num <= den`.
fn fraction_threshold(num: u128, den: u128) -> (r: Chance)
    requires
        0 < den,
        num <= den,
        den <= 0x2_0000_0000_0000_0000,
    ensures
        r.threshold == ceil_div(num * CHANCE_ONE, den as int),
        r.threshold <= CHANCE_ONE,
{
    assert(num * CHANCE_ONE <= 0x2_0000_0000_0000_0000 * CHANCE_ONE) by (nonlinear_arith)
        requires
            num <= 0x2_0000_0000_0000_0000int,
    ;
    let n: u128 = num * CHANCE_ONE as u128;
    let t: u128 = (n + den - 1) / den;
    assert(t <= CHANCE_ONE) by (nonlinear_arith)
        requires
            t == (n + den - 1) / den as int,
            n == num * CHANCE_ONE,
            num <= den,
            0 < den,
    {
        assert(n + den - 1 < (CHANCE_ONE + 1) * den) by (nonlinear_arith)
            requires
                n == num * CHANCE_ONE,
                num <= den,
                0 < den,
        ;
    }
    Chance { threshold: t as u64 }
}

/// Chance that a flash draw goes to the flash keys: `i / (i + 1)` for intensity `i`.
pub open spec fn flash_focus(intensity: Scaled) -> Chance {
    Chance {
        threshold: ceil_div(
            intensity.millionths * CHANCE_ONE,
            intensity.millionths + 1_000_000,
        ) as u64,
    }
}

/// Chance that a burst of the Bursty workload persists: `max(h - 0.5, 0) * 2`.
pub open spec fn burst_persistence(hurst: Scaled) -> Chance {
    if hurst.millionths <= 500_000 {
        Chance { threshold: 0 }
    } else if hurst.millionths >= 1_000_000 {
        Chance { threshold: CHANCE_ONE }
    } else {
        Chance {
            threshold: ceil_div(
                (hurst.millionths - 500_000) * 2 * CHANCE_ONE,
                1_000_000,
            ) as u64,
        }
    }
}

/// Chance that an idle Bursty workload starts a burst: `(1 - persistence) / 10`.
pub open spec fn burst_onset(hurst: Scaled) -> Chance {
    Chance { threshold: ((CHANCE_ONE - burst_persistence(hurst).threshold) / 10) as u64 }
}

fn flash_focus_chance(intensity: Scaled) -> (r: Chance)
    ensures
        r == flash_focus(intensity),
{
    fraction_threshold(
        intensity.millionths as u128,
        intensity.millionths as u128 + 1_000_000,
    )
}

fn burst_chances(hurst: Scaled) -> (r: (Chance, Chance))
    ensures
        r.0 == burst_persistence(hurst),
        r.1 == burst_onset(hurst),
        r.0.threshold <= CHANCE_ONE,
{
    let persist = if hurst.millionths <= 500_000 {
        Chance { threshold: 0 }
    } else if hurst.millionths >= 1_000_000 {
        Chance { threshold: CHANCE_ONE }
    } else {
        fraction_threshold((hurst.millionths as u128 - 500_000) * 2, 1_000_000)
    };
    let onset = Chance { threshold: (CHANCE_ONE - persist.threshold) / 10 };
    (persist, onset)
}

/// 2^64, the modulus of wrapping `u64` arithmetic.
pub open spec fn two_64() -> int {
    0x1_0000_0000_0000_0000
}

/// The working set size actually used by Loop and WorkingSetChurn (at least one).
pub open spec fn at_least_one(w: u64) -> u64 {
    if w == 0 { 1 } else { w }
}

/// Number of positions the window of WorkingSetChurn can take.
pub open spec fn window_span(u: u64, w: u64) -> int {
    if u >= at_least_one(w) { u - at_least_one(w) + 1 } else { 1 }
}

/// Bound on the keys of workload `w` over universe `u`: the universe, except
/// for Loop, whose keys cycle through its working set whatever the universe.
pub open spec fn key_limit(w: Workload, u: u64) -> int {
    match w {
        Workload::Loop { working_set_size } => at_least_one(working_set_size) as int,
        _ => u as int,
    }
}

/// Whether raw draw `x` lands below probability `c`.
pub open spec fn hits(c: Chance, x: u64) -> bool {
    (x >> 11u64) < c.threshold
}

/// The raw values a step may draw: coins for probabilities, picks for
/// uniform choices, and a skewed sample.  A step uses some of them.
pub struct Draws {
    pub coin: u64,
    pub pick: u64,
    pub rank: u64,
    pub coin2: u64,
    pub pick2: u64,
}

/// HotSet key: with `prob`, uniform in the hot region `[0, h)`; otherwise
/// uniform in the cold region `[h, u)`, or in all of `[0, u)` when the hot
/// region is everything.
pub open spec fn hotset_spec(u: u64, frac: Chance, prob: Chance, coin: u64, pick: u64) -> u64 {
    let h = hot_size(u, frac);
    if hits(prob, coin) {
        pick % h
    } else if h == u {
        pick % u
    } else {
        (h + pick % ((u - h) as u64)) as u64
    }
}

/// HotSet key from its two draws.
pub fn hotset_key(u: u64, frac: Chance, prob: Chance, coin: u64, pick: u64) -> (r: u64)
    requires
        u >= 1,
    ensures
        r == hotset_spec(u, frac, prob, coin, pick),
        r < u,
{
    let h = hot_region_size(u, frac);
    if prob.hit_by(coin) {
        pick % h
    } else if h == u {
        pick % u
    } else {
        h + pick % (u - h)
    }
}

/// Base of the hot region after `ops` operations: it moves by the region's
/// size every `interval` operations.
pub open spec fn shifting_base(u: u64, interval: u64, frac: Chance, ops: u64) -> int {
    ((ops / at_least_one(interval)) * hot_size(u, frac)) % (u as int)
}

/// ShiftingHotspot key: 80% uniform in the current hot region, else uniform.
pub open spec fn shifting_spec(u: u64, interval: u64, frac: Chance, ops: u64, coin: u64, pick: u64) -> u64 {
    if hits(chance_ratio(4, 5), coin) {
        ((shifting_base(u, interval, frac, ops) + pick % hot_size(u, frac)) % (u as int)) as u64
    } else {
        pick % u
    }
}

/// ShiftingHotspot key from its two draws, `ops` operations in.
pub fn shifting_key(u: u64, interval: u64, frac: Chance, ops: u64, coin: u64, pick: u64) -> (r: u64)
    requires
        u >= 1,
    ensures
        r == shifting_spec(u, interval, frac, ops, coin, pick),
        r < u,
{
    let hot = hot_region_size(u, frac);
    let iv = if interval == 0 { 1 } else { interval };
    let base = add_mul_mod(0, ops / iv, hot, u);
    if Chance::ratio(4, 5).hit_by(coin) {
        add_mod(base, pick % hot, u)
    } else {
        pick % u
    }
}

/// WorkingSetChurn: the window base after one step; it advances by one
/// (wrapping within the positions the window can take) with `rate`.
pub open spec fn window_spec(u: u64, w: u64, rate: Chance, base: u64, coin: u64) -> u64 {
    if hits(rate, coin) { ((base + 1) % window_span(u, w)) as u64 } else { base }
}

/// WorkingSetChurn window base after a step with draw `coin`.
pub fn window_base(u: u64, w: u64, rate: Chance, base: u64, coin: u64) -> (r: u64)
    ensures
        r == window_spec(u, w, rate, base, coin),
{
    let ws = if w == 0 { 1 } else { w };
    if rate.hit_by(coin) {
        let span: u128 = if u >= ws { (u - ws) as u128 + 1 } else { 1 };
        ((base as u128 + 1) % span) as u64
    } else {
        base
    }
}

/// Bursty: whether a burst is on after a step with draw `coin`.  An active
/// burst persists with its persistence; an idle one starts with its onset.
pub open spec fn bursty_spec(hurst: Scaled, active: bool, coin: u64) -> bool {
    if active { hits(burst_persistence(hurst), coin) } else { hits(burst_onset(hurst), coin) }
}

/// Bursty state after a step with draw `coin`.
pub fn bursty_active(hurst: Scaled, active: bool, coin: u64) -> (r: bool)
    ensures
        r == bursty_spec(hurst, active, coin),
{
    let (persist, onset) = burst_chances(hurst);
    if active { persist.hit_by(coin) } else { onset.hit_by(coin) }
}

/// Mixture rank: `1 / max(v, 0.001)` for the uniform `v = (x >> 11) / 2^53`.
pub open spec fn mixture_rank_spec(x: u64) -> u64 {
    let y = x >> 11u64;
    if y * 1000 < CHANCE_ONE { 1000 } else { (CHANCE_ONE / y) as u64 }
}

/// Mixture rank from draw `x`.
pub fn mixture_rank(x: u64) -> (r: u64)
    ensures
        r == mixture_rank_spec(x),
{
    let y = x >> 11u64;
    if y as u128 * 1000 < CHANCE_ONE as u128 { 1000 } else { CHANCE_ONE / y }
}

/// Mixture key and state: 70% rank-based skew, 20% the next scan position,
/// 10% uniform, chosen by one coin.
pub open spec fn mixture_spec(u: u64, pos: u64, d: Draws) -> (u64, WorkloadState) {
    if hits(chance_ratio(7, 10), d.coin) {
        let q = mixture_rank_spec(d.pick);
        (rank_key(if q < u { q } else { u }, u), WorkloadState::Cursor { pos })
    } else if hits(chance_ratio(9, 10), d.coin) {
        (pos, WorkloadState::Cursor { pos: ((pos + 1) % (u as int)) as u64 })
    } else {
        (d.pick2 % u, WorkloadState::Cursor { pos })
    }
}

/// The narrowed key range of an active Bursty burst: a tenth of the universe.
pub open spec fn burst_range(u: u64) -> u64 {
    if u / 10 == 0 { 1 } else { (u / 10) as u64 }
}

/// One step of workload `w` over universe `u`, the `ops`-th operation, with
/// `ic` inserts recorded, from state `s`, given the values drawn: the key
/// and the next state.
pub open spec fn step_of(w: Workload, u: u64, ops: u64, ic: u64, s: WorkloadState, d: Draws) -> (u64, WorkloadState) {
    match w {
        Workload::Uniform => (d.pick % u, s),
        Workload::HotSet { hot_fraction, hot_prob } => (hotset_spec(u, hot_fraction, hot_prob, d.coin, d.pick), s),
        Workload::Scan => match s {
            WorkloadState::Cursor { pos } => (pos, WorkloadState::Cursor { pos: ((pos + 1) % (u as int)) as u64 }),
            _ => (0, s),
        },
        Workload::Zipfian { .. } => (rank_key(d.rank, u), s),
        Workload::ScrambledZipfian { .. } => (fnv_spec(rank_key(d.rank, u)) % u, s),
        Workload::Latest { .. } => ((((ic - rank_key(d.rank, u)) % two_64()) % (u as int)) as u64, s),
        Workload::ShiftingHotspot { shift_interval, hot_fraction } =>
            (shifting_spec(u, shift_interval, hot_fraction, ops, d.coin, d.pick), s),
        Workload::Exponential { .. } | Workload::Pareto { .. } => (offset_key(d.rank, u), s),
        Workload::ScanResistance { scan_fraction, scan_length, .. } => match s {
            WorkloadState::ScanPhase { in_scan, remaining, start } => {
                let len = scan_len(scan_length);
                let starts = !in_scan && hits(scan_fraction, d.coin);
                let i2 = if starts { true } else { in_scan };
                let r2 = if starts { len } else { remaining };
                let s2 = if starts { d.pick % u } else { start };
                if i2 {
                    (((s2 + (len - r2)) % (u as int)) as u64,
                     WorkloadState::ScanPhase { in_scan: r2 > 1, remaining: (r2 - 1) as u64, start: s2 })
                } else {
                    (rank_key(d.rank, u), WorkloadState::ScanPhase { in_scan: i2, remaining: r2, start: s2 })
                }
            },
            _ => (0, s),
        },
        Workload::Correlated { stride, burst_len, burst_prob } => match s {
            WorkloadState::Burst { remaining, start } => if remaining > 0 {
                (((start + (burst_len - remaining) * stride) % (u as int)) as u64,
                 WorkloadState::Burst { remaining: (remaining - 1) as u64, start })
            } else if hits(burst_prob, d.coin) {
                (d.pick % u, WorkloadState::Burst {
                    remaining: if burst_len == 0 { 0 } else { (burst_len - 1) as u64 },
                    start: d.pick % u,
                })
            } else {
                (d.pick % u, s)
            },
            _ => (0, s),
        },
        Workload::Loop { working_set_size } => match s {
            WorkloadState::LoopCursor { pos } =>
                (pos % at_least_one(working_set_size), WorkloadState::LoopCursor { pos: ((pos + 1) % two_64()) as u64 }),
            _ => (0, s),
        },
        Workload::WorkingSetChurn { working_set_size, churn_rate } => match s {
            WorkloadState::Window { base } => {
                let b = window_spec(u, working_set_size, churn_rate, base, d.coin);
                (((b + d.pick % at_least_one(working_set_size)) % (u as int)) as u64, WorkloadState::Window { base: b })
            },
            _ => (0, s),
        },
        Workload::Bursty { hurst, .. } => match s {
            WorkloadState::Bursting { active } => {
                let a = bursty_spec(hurst, active, d.coin);
                let k = rank_key(d.rank, u);
                (if a { k % burst_range(u) } else { k }, WorkloadState::Bursting { active: a })
            },
            _ => (0, s),
        },
        Workload::FlashCrowd { flash_prob, flash_duration, flash_keys, flash_intensity, .. } => match s {
            WorkloadState::Flash { active, remaining, base } => {
                let starts = !active && hits(flash_prob, d.coin);
                let r1 = if starts { at_least_one(flash_duration) } else { remaining };
                let b1 = if starts { d.pick % u } else { base };
                if starts || active {
                    let st = WorkloadState::Flash { active: r1 > 1, remaining: (r1 - 1) as u64, base: b1 };
                    if hits(flash_focus(flash_intensity), d.coin2) {
                        (((b1 + d.pick2 % at_least_one(flash_keys)) % (u as int)) as u64, st)
                    } else {
                        (rank_key(d.rank, u), st)
                    }
                } else {
                    (rank_key(d.rank, u), s)
                }
            },
            _ => (0, s),
        },
        Workload::Mixture => match s {
            WorkloadState::Cursor { pos } => mixture_spec(u, pos, d),
            _ => (0, s),
        },
    }
}

/// What one call of `next_key` must do, whatever values the random stream
/// and the sampler supply: from model `o`, with result `key`, to model `n`.
pub open spec fn step_facts(o: GeneratorModel, n: GeneratorModel, key: u64) -> bool {
    let u = o.universe;
    &&& key < key_limit(o.workload, u)
    &&& n.universe == u
    &&& n.workload == o.workload
    &&& n.insert_counter == o.insert_counter
    &&& n.operation_count == (o.operation_count + 1) % two_64()
    &&& state_fits(n.workload, n.state, u)
    &&& exists|d: Draws| #[trigger] step_of(o.workload, u, n.operation_count, o.insert_counter, o.state, d) == (key, n.state)
}

/// Stateful generator of a workload's key stream.
///
/// It owns a seeded pseudo-random stream, the state of its workload, and the
/// sampler of skewed values that some workloads draw from that stream.
#[derive(Debug, Clone)]
pub struct WorkloadGenerator<S> {
    universe: u64,
    workload: Workload,
    rng: SmallRng,
    operation_count: u64,
    insert_counter: u64,
    state: WorkloadState,
    sampler: S,
}

impl<S> View for WorkloadGenerator<S> {
    type V = GeneratorModel;

    closed spec fn view(&self) -> GeneratorModel {
        GeneratorModel {
            universe: self.universe,
            workload: self.workload,
            operation_count: self.operation_count,
            insert_counter: self.insert_counter,
            state: self.state,
        }
    }
}

impl WorkloadSpec {
    /// A generator for this spec, drawing skewed samples from `sampler`.
    pub fn generator<S: SkewSampler>(self, sampler: S) -> (r: WorkloadGenerator<S>)
        requires
            params_valid(self.workload),
        ensures
            r.wf(),
            r@ == fresh_model(self.universe, self.workload),
    {
        WorkloadGenerator::new(self.universe, self.workload, self.seed, sampler)
    }
}

/// The model of a freshly built generator; universes below one become one.
pub open spec fn fresh_model(universe: u64, workload: Workload) -> GeneratorModel {
    GeneratorModel {
        universe: if universe == 0 { 1 } else { universe },
        workload,
        operation_count: 0,
        insert_counter: 0,
        state: initial_state(workload),
    }
}

impl<S: SkewSampler> WorkloadGenerator<S> {
    /// Well-formedness: a nonempty universe and a state that fits the workload.
    pub closed spec fn wf(&self) -> bool {
        &&& self.universe >= 1
        &&& state_fits(self.workload, self.state, self.universe)
    }

    /// A generator over `[0, universe)` for `workload`, seeded with `seed`.
    pub fn new(universe: u64, workload: Workload, seed: u64, sampler: S) -> (r: WorkloadGenerator<S>)
        requires
            params_valid(workload),
        ensures
            r.wf(),
            r@ == fresh_model(universe, workload),
    {
        let universe = if universe == 0 { 1 } else { universe };
        let state = match workload {
            Workload::Scan | Workload::Mixture => WorkloadState::Cursor { pos: 0 },
            Workload::Loop { .. } => WorkloadState::LoopCursor { pos: 0 },
            Workload::ScanResistance { .. } => WorkloadState::ScanPhase { in_scan: false, remaining: 0, start: 0 },
            Workload::Correlated { .. } => WorkloadState::Burst { remaining: 0, start: 0 },
            Workload::WorkingSetChurn { .. } => WorkloadState::Window { base: 0 },
            Workload::Bursty { .. } => WorkloadState::Bursting { active: false },
            Workload::FlashCrowd { .. } => WorkloadState::Flash { active: false, remaining: 0, base: 0 },
            _ => WorkloadState::Memoryless,
        };
        WorkloadGenerator {
            universe,
            workload,
            rng: seeded_rng(seed),
            operation_count: 0,
            insert_counter: 0,
            state,
            sampler,
        }
    }

    /// Notify the generator that a key was inserted (for the Latest workload).
    pub fn record_insert(&mut self)
        requires
            old(self).wf(),
        ensures
            final(self).wf(),
            final(self)@ == (GeneratorModel {
                insert_counter: ((old(self)@.insert_counter + 1) % two_64()) as u64,
                ..old(self)@
            }),
    {
        self.insert_counter = self.insert_counter.wrapping_add(1);
    }

    /// The next raw 64-bit value of the generator's stream.
    fn draw(&mut self) -> (r: u64)
        ensures
            final(self)@ == old(self)@,
    {
        next_draw(&mut self.rng)
    }

    /// A skewed sample from the sampler, on the generator's stream.
    fn skewed(&mut self) -> (r: u64)
        ensures
            final(self)@ == old(self)@,
    {
        self.sampler.draw(&mut self.rng)
    }

    /// Advance the process by one operation and return the next key.
    #[verifier::rlimit(100)]
    #[verifier::spinoff_prover]
    pub fn next_key(&mut self) -> (key: u64)
        requires
            old(self).wf(),
        ensures
            final(self).wf(),
            step_facts(old(self)@, final(self)@, key),
    {
        let ghost o = self@;
        self.operation_count = self.operation_count.wrapping_add(1);
        let u = self.universe;
        let ghost mut d = Draws { coin: 0, pick: 0, rank: 0, coin2: 0, pick2: 0 };
        let key = match self.workload {
            Workload::Uniform => {
                let pick = self.draw();
                proof { d = Draws { pick, ..d }; }
                pick % u
            },
            Workload::HotSet { hot_fraction, hot_prob } => {
                let coin = self.draw();
                let pick = self.draw();
                proof { d = Draws { coin, pick, ..d }; }
                hotset_key(u, hot_fraction, hot_prob, coin, pick)
            },
            Workload::Scan => {
                let pos = match self.state {
                    WorkloadState::Cursor { pos } => pos,
                    _ => 0,
                };
                self.state = WorkloadState::Cursor { pos: (pos + 1) % u };
                pos
            },
            Workload::Zipfian { .. } => {
                let rank = self.skewed();
                proof { d = Draws { rank, ..d }; }
                rank_to_key(rank, u)
            },
            Workload::ScrambledZipfian { .. } => {
                let rank = self.skewed();
                proof { d = Draws { rank, ..d }; }
                let k = rank_to_key(rank, u);
                let key = fnv_hash(k) % u;
                assert(key == fnv_spec(k) % u);
                key
            },
            Workload::Latest { .. } => {
                let rank = self.skewed();
                proof { d = Draws { rank, ..d }; }
                let off = rank_to_key(rank, u);
                let back = self.insert_counter.wrapping_sub(off);
                assert(back as int == (self.insert_counter - off) % two_64());
                back % u
            },
            Workload::ShiftingHotspot { shift_interval, hot_fraction } => {
                let coin = self.draw();
                let pick = self.draw();
                proof { d = Draws { coin, pick, ..d }; }
                shifting_key(u, shift_interval, hot_fraction, self.operation_count, coin, pick)
            },
            Workload::Exponential { .. } | Workload::Pareto { .. } => {
                let v = self.skewed();
                proof { d = Draws { rank: v, ..d }; }
                offset_to_key(v, u)
            },
            Workload::ScanResistance { scan_fraction, scan_length, .. } => {
                let len = if scan_length == 0 { 1 } else { scan_length };
                let (mut in_scan, mut remaining, mut start) = match self.state {
                    WorkloadState::ScanPhase { in_scan, remaining, start } => (in_scan, remaining, start),
                    _ => (false, 0, 0),
                };
                if !in_scan {
                    let coin = self.draw();
                    proof { d = Draws { coin, ..d }; }
                    if scan_fraction.hit_by(coin) {
                        let pick = self.draw();
                        proof { d = Draws { pick, ..d }; }
                        in_scan = true;
                        remaining = len;
                        start = pick % u;
                    }
                }
                if in_scan {
                    let key = add_mod(start, len - remaining, u);
                    remaining = remaining - 1;
                    self.state = WorkloadState::ScanPhase { in_scan: remaining > 0, remaining, start };
                    key
                } else {
                    self.state = WorkloadState::ScanPhase { in_scan, remaining, start };
                    let rank = self.skewed();
                    proof { d = Draws { rank, ..d }; }
                    rank_to_key(rank, u)
                }
            },
            Workload::Correlated { stride, burst_len, burst_prob } => {
                let (remaining, start) = match self.state {
                    WorkloadState::Burst { remaining, start } => (remaining, start),
                    _ => (0, 0),
                };
                if remaining > 0 {
                    let key = add_mul_mod(start, burst_len - remaining, stride, u);
                    self.state = WorkloadState::Burst { remaining: remaining - 1, start };
                    key
                } else {
                    let coin = self.draw();
                    let pick = self.draw();
                    proof { d = Draws { coin, pick, ..d }; }
                    let first = pick % u;
                    if burst_prob.hit_by(coin) {
                        self.state = WorkloadState::Burst { remaining: burst_len.saturating_sub(1), start: first };
                    }
                    first
                }
            },
            Workload::Loop { working_set_size } => {
                let pos = match self.state {
                    WorkloadState::LoopCursor { pos } => pos,
                    _ => 0,
                };
                let w = if working_set_size == 0 { 1 } else { working_set_size };
                self.state = WorkloadState::LoopCursor { pos: pos.wrapping_add(1) };
                pos % w
            },
            Workload::WorkingSetChurn { working_set_size, churn_rate } => {
                let w = if working_set_size == 0 { 1 } else { working_set_size };
                let base = match self.state {
                    WorkloadState::Window { base } => base,
                    _ => 0,
                };
                let coin = self.draw();
                let base = window_base(u, working_set_size, churn_rate, base, coin);
                self.state = WorkloadState::Window { base };
                let pick = self.draw();
                proof { d = Draws { coin, pick, ..d }; }
                let key = add_mod(base, pick % w, u);
                assert(key as int == (base + pick % w) % (u as int));
                key
            },
            Workload::Bursty { hurst, .. } => {
                let active = match self.state {
                    WorkloadState::Bursting { active } => active,
                    _ => false,
                };
                let coin = self.draw();
                let active = bursty_active(hurst, active, coin);
                self.state = WorkloadState::Bursting { active };
                let rank = self.skewed();
                proof { d = Draws { coin, rank, ..d }; }
                let key = rank_to_key(rank, u);
                if active {
                    let narrow = if u / 10 == 0 { 1 } else { u / 10 };
                    key % narrow
                } else {
                    key
                }
            },
            Workload::FlashCrowd { flash_prob, flash_duration, flash_keys, flash_intensity, .. } => {
                let (mut active, mut remaining, mut base) = match self.state {
                    WorkloadState::Flash { active, remaining, base } => (active, remaining, base),
                    _ => (false, 0, 0),
                };
                if !active {
                    let coin = self.draw();
                    proof { d = Draws { coin, ..d }; }
                    if flash_prob.hit_by(coin) {
                        let pick = self.draw();
                        proof { d = Draws { pick, ..d }; }
                        active = true;
                        remaining = if flash_duration == 0 { 1 } else { flash_duration };
                        base = pick % u;
                    }
                }
                if active {
                    remaining = remaining - 1;
                    active = remaining > 0;
                    self.state = WorkloadState::Flash { active, remaining, base };
                    let coin2 = self.draw();
                    proof { d = Draws { coin2, ..d }; }
                    if flash_focus_chance(flash_intensity).hit_by(coin2) {
                        let spread = if flash_keys == 0 { 1 } else { flash_keys };
                        let pick2 = self.draw();
                        proof { d = Draws { pick2, ..d }; }
                        add_mod(base, pick2 % spread, u)
                    } else {
                        let rank = self.skewed();
                        proof { d = Draws { rank, ..d }; }
                        rank_to_key(rank, u)
                    }
                } else {
                    self.state = WorkloadState::Flash { active, remaining, base };
                    let rank = self.skewed();
                    proof { d = Draws { rank, ..d }; }
                    rank_to_key(rank, u)
                }
            },
            Workload::Mixture => {
                let coin = self.draw();
                proof { d = Draws { coin, ..d }; }
                if Chance::ratio(7, 10).hit_by(coin) {
                    let x = self.draw();
                    proof { d = Draws { pick: x, ..d }; }
                    let q = mixture_rank(x);
                    let rank = if q < u { q } else { u };
                    rank_to_key(rank, u)
                } else if Chance::ratio(9, 10).hit_by(coin) {
                    let pos = match self.state {
                        WorkloadState::Cursor { pos } => pos,
                        _ => 0,
                    };
                    self.state = WorkloadState::Cursor { pos: (pos + 1) % u };
                    pos
                } else {
                    let pick2 = self.draw();
                    proof { d = Draws { pick2, ..d }; }
                    pick2 % u
                }
            },
        };
        assert(step_of(o.workload, u, self.operation_count, o.insert_counter, o.state, d) == (key, self.state));
        assert(key < key_limit(o.workload, u));
        assert(state_fits(self.workload, self.state, u));
        assert(self@.operation_count == (o.operation_count + 1) % two_64());
        assert(step_of(o.workload, u, self@.operation_count, o.insert_counter, o.state, d) == (key, self@.state));
        assert(step_facts(o, self@, key));
        key
    }
}

/// `WorkloadGenerator` is an unbounded stream of Get events.
impl<S: SkewSampler> EventSource for WorkloadGenerator<S> {
    open spec fn ready(&self) -> bool {
        self.wf()
    }

    open spec fn stepped(&self, after: &Self, r: Option<Event>) -> bool {
        r matches Some(e) && e == plain_event(e.key, Op::Get) && step_facts(self@, after@, e.key)
    }

    fn next_event(&mut self) -> (r: Option<Event>)
        ensures
            r matches Some(e) && e == plain_event(e.key, Op::Get),
            step_facts(old(self)@, final(self)@, r->0.key),
    {
        Some(Event::get(self.next_key()))
    }

    fn size_hint(&self) -> (r: Option<usize>)
        ensures
            r is None,
    {
        None
    }
}

/// Bounded wrapper that limits the number of events from a generator.
#[derive(Debug, Clone)]
pub struct BoundedGenerator<S> {
    inner: WorkloadGenerator<S>,
    remaining: usize,
    total: usize,
}

/// What a bounded generator is: its generator, events left, and events in all.
pub struct BoundedModel {
    pub generator: GeneratorModel,
    pub remaining: usize,
    pub total: usize,
}

impl<S> View for BoundedGenerator<S> {
    type V = BoundedModel;

    closed spec fn view(&self) -> BoundedModel {
        BoundedModel { generator: self.inner@, remaining: self.remaining, total: self.total }
    }
}

/// One call of `next_event` on a bounded generator, from `o` to `n`, returning `r`.
pub open spec fn bounded_step(o: BoundedModel, n: BoundedModel, r: Option<Event>) -> bool {
    &&& n.total == o.total
    &&& if o.remaining == 0 {
        r is None && n == o
    } else {
        &&& n.remaining == o.remaining - 1
        &&& r matches Some(e) && e == plain_event(e.key, Op::Get)
        &&& step_facts(o.generator, n.generator, r->0.key)
    }
}

impl<S: SkewSampler> BoundedGenerator<S> {
    /// Well-formedness: a well-formed generator and no more left than in all.
    pub closed spec fn wf(&self) -> bool {
        self.inner.wf() && self.remaining <= self.total
    }

    /// A bounded generator that emits exactly `count` events.
    pub fn new(inner: WorkloadGenerator<S>, count: usize) -> (r: BoundedGenerator<S>)
        requires
            inner.wf(),
        ensures
            r.wf(),
            r@ == (BoundedModel { generator: inner@, remaining: count, total: count }),
    {
        BoundedGenerator { inner, remaining: count, total: count }
    }

    /// Returns the underlying generator.
    pub fn into_inner(self) -> (r: WorkloadGenerator<S>)
        ensures
            r@ == self@.generator,
    {
        self.inner
    }

    /// Returns a reference to the underlying generator.
    pub fn inner(&self) -> (r: &WorkloadGenerator<S>)
        ensures
            r@ == self@.generator,
    {
        &self.inner
    }

    /// Returns the number of events remaining.
    pub fn remaining(&self) -> (r: usize)
        ensures
            r == self@.remaining,
    {
        self.remaining
    }

    /// Returns the total number of events this generator emits.
    pub fn total(&self) -> (r: usize)
        ensures
            r == self@.total,
    {
        self.total
    }

    /// The next event while any are left, then `None` for ever after.
    pub fn next_bounded(&mut self) -> (r: Option<Event>)
        requires
            old(self).wf(),
        ensures
            final(self).wf(),
            bounded_step(old(self)@, final(self)@, r),
    {
        if self.remaining == 0 {
            return None;
        }
        self.remaining = self.remaining - 1;
        Some(Event::get(self.inner.next_key()))
    }

    /// The exact number of events still to come.
    pub fn exact_size(&self) -> (r: Option<usize>)
        ensures
            r == Some(self@.remaining),
    {
        Some(self.remaining)
    }
}

impl<S: SkewSampler> EventSource for BoundedGenerator<S> {
    open spec fn ready(&self) -> bool {
        self.wf()
    }

    open spec fn stepped(&self, after: &Self, r: Option<Event>) -> bool {
        bounded_step(self@, after@, r)
    }

    fn next_event(&mut self) -> (r: Option<Event>)
        ensures
            bounded_step(old(self)@, final(self)@, r),
    {
        self.next_bounded()
    }

    fn size_hint(&self) -> (r: Option<usize>)
        ensures
            r == Some(self@.remaining),
    {
        self.exact_size()
    }
}

/// Hit and miss counts of a window of operations.
#[derive(Debug, Clone, Copy, Default, PartialEq, Eq, Structural)]
pub struct HitRate {
    pub hits: u64,
    pub misses: u64,
}

} // verus!
