//! Specialised measurements: scan resistance and adaptation speed.
//!
//! Rates are kept exact, as hit and miss counts; a rate of a window without
//! lookups is zero.
use vstd::prelude::*;
use crate::event::Op;
use crate::metrics::HitStats;
use crate::model::CacheModel;
use crate::event::Event;
use crate::simulator::{outcomes, ran, replay, replay_bounded, replay_upto, replayed, simulate};
use crate::source::EventSource;
use crate::workload::HitRate;

verus! {

/// Lookups counted in `h`.
pub open spec fn lookups(h: HitRate) -> int {
    h.hits + h.misses
}

/// Whether the counts of `h` fit a `u64` together.
pub open spec fn fits(h: HitRate) -> bool {
    lookups(h) <= u64::MAX
}

/// The hit and miss counts of replay statistics.
pub open spec fn rate_of(s: HitStats) -> HitRate {
    HitRate { hits: s.hits, misses: s.misses }
}

/// A nonnegative rational number `num / den`.
#[derive(Debug, Clone, Copy, PartialEq, Eq, Structural)]
pub struct Ratio {
    pub num: u128,
    pub den: u128,
}

/// Recovery hit rate over baseline hit rate; zero when the baseline hit rate
/// is zero (no division by zero) or when recovery saw no lookups.
pub open spec fn score_of(baseline: HitRate, recovery: HitRate) -> Ratio {
    if baseline.hits == 0 || lookups(recovery) == 0 {
        Ratio { num: 0, den: 1 }
    } else {
        Ratio {
            num: (recovery.hits * lookups(baseline)) as u128,
            den: (lookups(recovery) * baseline.hits) as u128,
        }
    }
}

/// The scan resistance score: `recovery_rate / baseline_rate`, 1 meaning full
/// recovery.
pub fn resistance_score(baseline: HitRate, recovery: HitRate) -> (r: Ratio)
    requires
        fits(baseline),
        fits(recovery),
    ensures
        r == score_of(baseline, recovery),
        r.den > 0,
        baseline.hits == 0 ==> r.num == 0,
{
    if baseline.hits == 0 || recovery.hits as u128 + recovery.misses as u128 == 0 {
        return Ratio { num: 0, den: 1 };
    }
    let bt = baseline.hits as u128 + baseline.misses as u128;
    let rt = recovery.hits as u128 + recovery.misses as u128;
    assert(recovery.hits * bt <= 0xffff_ffff_ffff_ffff * 0xffff_ffff_ffff_ffff) by (nonlinear_arith)
        requires
            recovery.hits <= 0xffff_ffff_ffff_ffffu64,
            bt <= 0xffff_ffff_ffff_ffff,
    ;
    assert(rt * baseline.hits <= 0xffff_ffff_ffff_ffff * 0xffff_ffff_ffff_ffff) by (nonlinear_arith)
        requires
            baseline.hits <= 0xffff_ffff_ffff_ffffu64,
            rt <= 0xffff_ffff_ffff_ffff,
    ;
    assert(rt * baseline.hits > 0) by (nonlinear_arith)
        requires
            baseline.hits > 0,
            rt > 0,
    ;
    Ratio { num: recovery.hits as u128 * bt, den: rt * baseline.hits as u128 }
}

/// Results of a scan resistance measurement.
#[derive(Debug, Clone, Copy, PartialEq, Eq, Structural)]
pub struct ScanResistanceResult {
    /// Hits and misses before the scan.
    pub baseline: HitRate,
    /// Hits and misses during the scan.
    pub scan: HitRate,
    /// Hits and misses after the scan.
    pub recovery: HitRate,
    /// Recovery hit rate over baseline hit rate.
    pub resistance_score: Ratio,
}

/// Run point lookups from `baseline`, a scan from `scan`, then point lookups
/// from `recovery`, all against `cache` with read-through, and score how well
/// the cache recovered.
pub fn measure_scan_resistance<C: CacheModel, A: EventSource, B: EventSource, D: EventSource>(
    cache: &mut C,
    baseline: &mut A,
    scan: &mut B,
    recovery: &mut D,
) -> (r: ScanResistanceResult)
    requires
        old(baseline).ready(),
        old(scan).ready(),
        old(recovery).ready(),
    ensures
        final(baseline).ready(),
        final(scan).ready(),
        final(recovery).ready(),
        fits(r.baseline) && fits(r.scan) && fits(r.recovery),
        exists|c1: C, c2: C, hb: HitStats, hs: HitStats, hr: HitStats| {
            &&& #[trigger] ran(*old(cache), *old(baseline), c1, *final(baseline), hb, true)
            &&& #[trigger] ran(c1, *old(scan), c2, *final(scan), hs, true)
            &&& #[trigger] ran(c2, *old(recovery), *final(cache), *final(recovery), hr, true)
            &&& r.baseline == rate_of(hb)
            &&& r.scan == rate_of(hs)
            &&& r.recovery == rate_of(hr)
        },
        r.resistance_score == score_of(r.baseline, r.recovery),
{
    let b = simulate(cache, baseline);
    let ghost c1 = *cache;
    let s = simulate(cache, scan);
    let ghost c2 = *cache;
    let v = simulate(cache, recovery);
    let base = HitRate { hits: b.hits, misses: b.misses };
    let during = HitRate { hits: s.hits, misses: s.misses };
    let after = HitRate { hits: v.hits, misses: v.misses };
    let score = resistance_score(base, after);
    ScanResistanceResult { baseline: base, scan: during, recovery: after, resistance_score: score }
}

/// Whether the rate of `w` is at least `(d - 1) / d` of the rate of `s`.
pub open spec fn reaches(w: HitRate, s: HitRate, d: int) -> bool {
    if lookups(s) == 0 || s.hits == 0 {
        true
    } else if lookups(w) == 0 {
        false
    } else {
        d * (w.hits * lookups(s)) >= (d - 1) * (s.hits * lookups(w))
    }
}

/// Index of the first window of `curve` from `i` on whose rate reaches
/// `(d - 1) / d` of the rate of `s`, or the length of `curve`.
pub open spec fn first_reaching(curve: Seq<HitRate>, s: HitRate, d: int, i: int) -> int
    decreases curve.len() - i,
{
    if i < 0 || i >= curve.len() {
        curve.len() as int
    } else if reaches(curve[i], s, d) {
        i
    } else {
        first_reaching(curve, s, d, i + 1)
    }
}

/// Operations until the windowed rate first reaches the share: the end of
/// that window, or of the last one if none does.
pub open spec fn ops_until(curve: Seq<HitRate>, s: HitRate, d: int, window: usize) -> usize {
    let k = first_reaching(curve, s, d, 0);
    let n = if k < curve.len() { k + 1 } else { curve.len() as int };
    if window * n > usize::MAX { usize::MAX } else { (window * n) as usize }
}

/// The stable rate of a curve: its last window, or no lookups at all.
pub open spec fn stable_of(curve: Seq<HitRate>) -> HitRate {
    if curve.len() == 0 { HitRate { hits: 0, misses: 0 } } else { curve.last() }
}

/// Results of an adaptation speed measurement.
#[derive(Debug, Clone)]
pub struct AdaptationResult {
    /// Hits and misses of the final, stable window.
    pub stable: HitRate,
    /// Operations until the windowed hit rate reached half the stable one.
    pub ops_to_50_percent: usize,
    /// Operations until the windowed hit rate reached 80% of the stable one.
    pub ops_to_80_percent: usize,
    /// Hits and misses of each window.
    pub hit_rate_curve: Vec<HitRate>,
}

fn reaches_share(w: HitRate, s: HitRate, d: u128) -> (r: bool)
    requires
        fits(w),
        fits(s),
        d >= 1,
    ensures
        r == reaches(w, s, d as int),
{
    let st = s.hits as u128 + s.misses as u128;
    let wt = w.hits as u128 + w.misses as u128;
    if st == 0 || s.hits == 0 {
        return true;
    }
    if wt == 0 {
        return false;
    }
    assert(w.hits * st <= 0xffff_ffff_ffff_ffff * 0xffff_ffff_ffff_ffff) by (nonlinear_arith)
        requires
            w.hits <= 0xffff_ffff_ffff_ffffu64,
            st <= 0xffff_ffff_ffff_ffff,
    ;
    assert(s.hits * wt <= 0xffff_ffff_ffff_ffff * 0xffff_ffff_ffff_ffff) by (nonlinear_arith)
        requires
            s.hits <= 0xffff_ffff_ffff_ffffu64,
            wt <= 0xffff_ffff_ffff_ffff,
    ;
    let a: u128 = w.hits as u128 * st;
    let b: u128 = s.hits as u128 * wt;
    let r = a >= b - b / d;
    assert(r == (d * a >= (d - 1) * b)) by (nonlinear_arith)
        requires
            r == (a >= b - b / d),
            d >= 1,
            b >= 0,
            a >= 0,
    {
        let q = b / d;
        let m = b % d;
        assert(b == d * q + m);
        assert(0 <= m < d);
    }
    r
}

/// Index of the first window reaching the share, or the curve's length.
fn first_window(curve: &Vec<HitRate>, s: HitRate, d: u128) -> (r: usize)
    requires
        forall|i: int| 0 <= i < curve@.len() ==> fits(#[trigger] curve@[i]),
        fits(s),
        d >= 1,
    ensures
        r as int == first_reaching(curve@, s, d as int, 0),
{
    let mut i: usize = 0;
    while i < curve.len()
        invariant
            i <= curve@.len(),
            fits(s),
            d >= 1,
            forall|j: int| 0 <= j < curve@.len() ==> fits(#[trigger] curve@[j]),
            first_reaching(curve@, s, d as int, i as int) == first_reaching(curve@, s, d as int, 0),
        decreases curve@.len() - i,
    {
        if reaches_share(curve[i], s, d) {
            return i;
        }
        i = i + 1;
    }
    i
}

fn ops_for(k: usize, len: usize, window: usize) -> (r: usize)
    requires
        k <= len,
    ensures
        r as int == (if window * (if k < len { k + 1 } else { len as int }) > usize::MAX {
            usize::MAX as int
        } else {
            window * (if k < len { k + 1 } else { len as int })
        }),
{
    let n: usize = if k < len { k + 1 } else { len };
    match window.checked_mul(n) {
        Some(m) => m,
        None => usize::MAX,
    }
}

/// Read the adaptation figures off a curve of windows of `window` operations.
pub fn adaptation_of(curve: Vec<HitRate>, window: usize) -> (r: AdaptationResult)
    requires
        forall|i: int| 0 <= i < curve@.len() ==> fits(#[trigger] curve@[i]),
    ensures
        r.hit_rate_curve@ == curve@,
        r.stable == stable_of(curve@),
        r.ops_to_50_percent == ops_until(curve@, stable_of(curve@), 2, window),
        r.ops_to_80_percent == ops_until(curve@, stable_of(curve@), 5, window),
{
    let stable = if curve.len() == 0 { HitRate { hits: 0, misses: 0 } } else { curve[curve.len() - 1] };
    let k50 = first_window(&curve, stable, 2);
    let k80 = first_window(&curve, stable, 5);
    proof {
        first_reaching_bound(curve@, stable, 2, 0);
        first_reaching_bound(curve@, stable, 5, 0);
    }
    let ops50 = ops_for(k50, curve.len(), window);
    let ops80 = ops_for(k80, curve.len(), window);
    AdaptationResult { stable, ops_to_50_percent: ops50, ops_to_80_percent: ops80, hit_rate_curve: curve }
}

proof fn first_reaching_bound(curve: Seq<HitRate>, s: HitRate, d: int, i: int)
    requires
        0 <= i <= curve.len(),
    ensures
        i <= first_reaching(curve, s, d, i) <= curve.len(),
    decreases curve.len() - i,
{
    if i < curve.len() && !reaches(curve[i], s, d) {
        first_reaching_bound(curve, s, d, i + 1);
    }
}

/// The rate of the window whose events `es` answered `hs`.
pub open spec fn window_rate(es: Seq<Event>, hs: Seq<bool>) -> HitRate {
    rate_of(replay(outcomes(es, hs), true))
}

/// Windows `wes` (answered `whs`) were replayed in turn from caches `cs`
/// and sources `ss`; every window but a last one that met the source's end
/// holds `window` events.
pub open spec fn windowed<C: CacheModel, S: EventSource>(
    cs: Seq<C>,
    ss: Seq<S>,
    wes: Seq<Seq<Event>>,
    whs: Seq<Seq<bool>>,
    ended: bool,
    window: usize,
) -> bool {
    &&& cs.len() == wes.len() + 1
    &&& ss.len() == wes.len() + 1
    &&& whs.len() == wes.len()
    &&& (ended ==> wes.len() >= 1)
    &&& forall|i: int| 0 <= i < wes.len() && !(ended && i == wes.len() - 1) ==> {
        &&& #[trigger] replayed(cs[i], ss[i], cs[i + 1], ss[i + 1], wes[i], whs[i], false, true)
        &&& wes[i].len() == window
    }
    &&& ended ==> {
        &&& replayed(cs[wes.len() - 1], ss[wes.len() - 1], cs.last(), ss.last(), wes.last(), whs.last(), true, true)
        &&& wes.last().len() <= window
    }
}

/// Replay `windows` windows of `window` events each, fewer if the source
/// ends, and read off how fast the hit rate settles.  A last window without
/// lookups, cut short by the end of the source, is not part of the curve.
pub fn measure_adaptation<C: CacheModel, S: EventSource>(
    cache: &mut C,
    source: &mut S,
    window: usize,
    windows: usize,
) -> (r: AdaptationResult)
    requires
        old(source).ready(),
    ensures
        final(source).ready(),
        exists|cs: Seq<C>, ss: Seq<S>, wes: Seq<Seq<Event>>, whs: Seq<Seq<bool>>, ended: bool| {
            &&& #[trigger] windowed(cs, ss, wes, whs, ended, window)
            &&& cs[0] == *old(cache)
            &&& ss[0] == *old(source)
            &&& cs.last() == *final(cache)
            &&& ss.last() == *final(source)
            &&& wes.len() <= windows
            &&& (!ended ==> wes.len() == windows)
            &&& (r.hit_rate_curve@.len() == wes.len()
                || (ended && lookups(window_rate(wes.last(), whs.last())) == 0
                    && r.hit_rate_curve@.len() == wes.len() - 1))
            &&& forall|i: int| 0 <= i < r.hit_rate_curve@.len()
                ==> r.hit_rate_curve@[i] == window_rate(wes[i], whs[i])
        },
        r.stable == stable_of(r.hit_rate_curve@),
        r.ops_to_50_percent == ops_until(r.hit_rate_curve@, r.stable, 2, window),
        r.ops_to_80_percent == ops_until(r.hit_rate_curve@, r.stable, 5, window),
{
    let mut curve: Vec<HitRate> = Vec::new();
    let ghost mut cs: Seq<C> = seq![*cache];
    let ghost mut ss: Seq<S> = seq![*source];
    let ghost mut wes: Seq<Seq<Event>> = Seq::empty();
    let ghost mut whs: Seq<Seq<bool>> = Seq::empty();
    let mut w: usize = 0;
    let mut ended = false;
    while w < windows && !ended
        invariant
            source.ready(),
            w <= windows,
            windowed(cs, ss, wes, whs, ended, window),
            cs[0] == *old(cache),
            ss[0] == *old(source),
            cs.last() == *cache,
            ss.last() == *source,
            wes.len() == w,
            curve@.len() == w || (ended && lookups(window_rate(wes.last(), whs.last())) == 0 && curve@.len() == w - 1),
            forall|i: int| 0 <= i < curve@.len() ==> curve@[i] == window_rate(wes[i], whs[i]),
            forall|i: int| 0 <= i < curve@.len() ==> lookups(#[trigger] curve@[i]) <= window,
        decreases windows - w + (if ended { 0int } else { 1int }),
    {
        let ghost cb = *cache;
        let ghost sb = *source;
        let (stats, done) = replay_upto(cache, source, true, window as u64);
        proof {
            let (es, hs) = choose|es: Seq<Event>, hs: Seq<bool>| {
                &&& replayed(cb, sb, *cache, *source, es, hs, done, true)
                &&& es.len() <= window as u64
                &&& (done || es.len() == window as u64)
                &&& stats == replay(#[trigger] outcomes(es, hs), true)
            };
            replay_bounded(outcomes(es, hs), true);
            let cs2 = cs.push(*cache);
            let ss2 = ss.push(*source);
            let wes2 = wes.push(es);
            let whs2 = whs.push(hs);
            assert forall|i: int| 0 <= i < wes2.len() && !(done && i == wes2.len() - 1) implies {
                &&& #[trigger] replayed(cs2[i], ss2[i], cs2[i + 1], ss2[i + 1], wes2[i], whs2[i], false, true)
                &&& wes2[i].len() == window
            } by {
                if i < wes.len() {
                    assert(replayed(cs[i], ss[i], cs[i + 1], ss[i + 1], wes[i], whs[i], false, true));
                    assert(cs2[i] == cs[i] && cs2[i + 1] == cs[i + 1] && ss2[i] == ss[i] && ss2[i + 1] == ss[i + 1]);
                    assert(wes2[i] == wes[i] && whs2[i] == whs[i]);
                } else {
                    assert(cs2[i] == cb && ss2[i] == sb);
                }
            }
            assert(windowed(cs2, ss2, wes2, whs2, done, window));
            cs = cs2;
            ss = ss2;
            wes = wes2;
            whs = whs2;
        }
        ended = done;
        if !(done && stats.hits == 0 && stats.misses == 0) {
            curve.push(HitRate { hits: stats.hits, misses: stats.misses });
        }
        w = w + 1;
    }
    proof {
        assert forall|i: int| 0 <= i < curve@.len() implies fits(#[trigger] curve@[i]) by {
            assert(lookups(curve@[i]) <= window);
        }
    }
    adaptation_of(curve, window)
}

} // verus!
