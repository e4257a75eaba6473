//! Properties of the generators that hold over whole runs, proved from the
//! contracts of `next_key`, `BoundedGenerator::next_bounded` and the constructors.
use vstd::prelude::*;
use crate::workload::{step_of, Draws, hits, hot_size, hotset_spec, window_spec, scan_len, Chance, CHANCE_ONE, at_least_one, bounded_step, fresh_model, step_facts, two_64, BoundedModel, GeneratorModel, Workload, WorkloadState};

verus! {

/// A run of `keys.len()` calls of `next_key`: `models[i]` before call `i`,
/// `models[i + 1]` after it, and `keys[i]` its result.
pub open spec fn is_run(models: Seq<GeneratorModel>, keys: Seq<u64>) -> bool {
    &&& models.len() == keys.len() + 1
    &&& forall|i: int| 0 <= i < keys.len() ==> #[trigger] step_facts(models[i], models[i + 1], keys[i])
}

/// Every key a generator returns lies in `[0, universe)`, save for a Loop
/// workload whose working set is larger than the universe.
pub proof fn key_in_universe(o: GeneratorModel, n: GeneratorModel, key: u64)
    requires
        step_facts(o, n, key),
        !(o.workload matches Workload::Loop { working_set_size } && at_least_one(working_set_size) > o.universe),
    ensures
        key < o.universe,
{
}

/// A Scan generator over universe `u` yields `0, 1, ..., u - 1, 0, 1, ...`.
pub proof fn scan_is_periodic(universe: u64, models: Seq<GeneratorModel>, keys: Seq<u64>)
    requires
        models.len() >= 1,
        models[0] == fresh_model(universe, Workload::Scan),
        is_run(models, keys),
    ensures
        forall|i: int| 0 <= i < keys.len() ==> keys[i] == i % (models[0].universe as int),
{
    let u = models[0].universe;
    assert forall|i: int| 0 <= i < models.len() implies models[i].universe == u
        && models[i].workload == Workload::Scan
        && models[i].state == (WorkloadState::Cursor { pos: (i % (u as int)) as u64 }) by {
        scan_prefix(models, keys, i);
    }
    assert forall|i: int| 0 <= i < keys.len() implies keys[i] == i % (u as int) by {
        scan_prefix(models, keys, i);
        assert(step_facts(models[i], models[i + 1], keys[i]));
        let m = models[i];
        let d = choose|d: Draws| #[trigger] step_of(m.workload, u, models[i + 1].operation_count, m.insert_counter, m.state, d) == (keys[i], models[i + 1].state);
    }
}

proof fn scan_prefix(models: Seq<GeneratorModel>, keys: Seq<u64>, i: int)
    requires
        models.len() >= 1,
        models[0].workload == Workload::Scan,
        models[0].universe >= 1,
        models[0].state == (WorkloadState::Cursor { pos: 0 }),
        is_run(models, keys),
        0 <= i < models.len(),
    ensures
        models[i].universe == models[0].universe,
        models[i].workload == Workload::Scan,
        models[i].state == (WorkloadState::Cursor { pos: (i % (models[0].universe as int)) as u64 }),
    decreases i,
{
    if i > 0 {
        scan_prefix(models, keys, i - 1);
        assert(step_facts(models[i - 1], models[(i - 1) + 1], keys[i - 1]));
        let m = models[i - 1];
        let d = choose|d: Draws| #[trigger] step_of(m.workload, m.universe, models[i].operation_count, m.insert_counter, m.state, d) == (keys[i - 1], models[i].state);
        let u = models[0].universe as int;
        assert(((i - 1) % u + 1) % u == i % u) by {
            vstd::arithmetic::div_mod::lemma_add_mod_noop(i - 1, 1, u);
            if u > 1 {
                vstd::arithmetic::div_mod::lemma_small_mod(1, u as nat);
            } else {
                assert((i - 1) % u == 0 && i % u == 0 && 1int % u == 0);
            }
        }
    }
}

/// A Loop generator with working set `w` yields `0, 1, ..., w - 1` repeating,
/// whatever its universe, for its first 2^64 keys.
pub proof fn loop_is_periodic(universe: u64, working_set_size: u64, models: Seq<GeneratorModel>, keys: Seq<u64>)
    requires
        models.len() >= 1,
        models[0] == fresh_model(universe, Workload::Loop { working_set_size }),
        is_run(models, keys),
        keys.len() <= two_64(),
    ensures
        forall|i: int| 0 <= i < keys.len() ==> keys[i] == i % (at_least_one(working_set_size) as int),
{
    assert forall|i: int| 0 <= i < keys.len() implies keys[i] == i % (at_least_one(working_set_size) as int) by {
        loop_prefix(working_set_size, models, keys, i);
        assert(step_facts(models[i], models[i + 1], keys[i]));
        let m = models[i];
        let d = choose|d: Draws| #[trigger] step_of(m.workload, m.universe, models[i + 1].operation_count, m.insert_counter, m.state, d) == (keys[i], models[i + 1].state);
    }
}

proof fn loop_prefix(working_set_size: u64, models: Seq<GeneratorModel>, keys: Seq<u64>, i: int)
    requires
        models.len() >= 1,
        models[0].workload == (Workload::Loop { working_set_size }),
        models[0].state == (WorkloadState::LoopCursor { pos: 0 }),
        is_run(models, keys),
        0 <= i < models.len(),
        i < two_64(),
    ensures
        models[i].workload == (Workload::Loop { working_set_size }),
        models[i].state == (WorkloadState::LoopCursor { pos: i as u64 }),
    decreases i,
{
    if i > 0 {
        loop_prefix(working_set_size, models, keys, i - 1);
        assert(step_facts(models[i - 1], models[(i - 1) + 1], keys[i - 1]));
        let m = models[i - 1];
        let d = choose|d: Draws| #[trigger] step_of(m.workload, m.universe, models[i].operation_count, m.insert_counter, m.state, d) == (keys[i - 1], models[i].state);
    }
}

/// Two generators built from the same universe and workload start in the
/// same model; for Scan and Loop, whose keys use no random draws, any two
/// runs of the same length from such a start return the same keys.
pub proof fn same_spec_same_keys(
    universe: u64,
    workload: Workload,
    m1: Seq<GeneratorModel>,
    k1: Seq<u64>,
    m2: Seq<GeneratorModel>,
    k2: Seq<u64>,
)
    requires
        workload is Scan || workload is Loop,
        m1.len() >= 1 && m2.len() >= 1,
        m1[0] == fresh_model(universe, workload),
        m2[0] == fresh_model(universe, workload),
        is_run(m1, k1),
        is_run(m2, k2),
        k1.len() == k2.len(),
        k1.len() <= two_64(),
    ensures
        k1 == k2,
{
    if workload is Scan {
        scan_is_periodic(universe, m1, k1);
        scan_is_periodic(universe, m2, k2);
    } else if let Workload::Loop { working_set_size } = workload {
        loop_is_periodic(universe, working_set_size, m1, k1);
        loop_is_periodic(universe, working_set_size, m2, k2);
    }
    assert(k1 =~= k2);
}

/// A run of `outs.len()` calls of `next_bounded`, between `models`.
pub open spec fn is_bounded_run(models: Seq<BoundedModel>, outs: Seq<Option<crate::event::Event>>) -> bool {
    &&& models.len() == outs.len() + 1
    &&& forall|i: int| 0 <= i < outs.len() ==> #[trigger] bounded_step(models[i], models[i + 1], outs[i])
}

/// `BoundedGenerator::new(gen, n)` yields exactly `n` events, then `None` for
/// ever; before call `i` the remaining count is `n - min(i, n)`.
pub proof fn bounded_exhaustion(count: usize, models: Seq<BoundedModel>, outs: Seq<Option<crate::event::Event>>)
    requires
        models.len() >= 1,
        models[0].remaining == count,
        is_bounded_run(models, outs),
    ensures
        forall|i: int| 0 <= i < outs.len() ==> (outs[i] is Some <==> i < count),
        forall|i: int| 0 <= i < models.len() ==> models[i].remaining == (if i < count { count - i } else { 0 }),
{
    assert forall|i: int| 0 <= i < models.len() implies models[i].remaining == (if i < count { count - i } else { 0 }) by {
        bounded_prefix(count, models, outs, i);
    }
    assert forall|i: int| 0 <= i < outs.len() implies (outs[i] is Some <==> i < count) by {
        bounded_prefix(count, models, outs, i);
        assert(bounded_step(models[i], models[i + 1], outs[i]));
    }
}

proof fn bounded_prefix(count: usize, models: Seq<BoundedModel>, outs: Seq<Option<crate::event::Event>>, i: int)
    requires
        models.len() >= 1,
        models[0].remaining == count,
        is_bounded_run(models, outs),
        0 <= i < models.len(),
    ensures
        models[i].remaining == (if i < count { count - i } else { 0 }),
    decreases i,
{
    if i > 0 {
        bounded_prefix(count, models, outs, i - 1);
        assert(bounded_step(models[i - 1], models[(i - 1) + 1], outs[i - 1]));
    }
}

/// Every draw lands below a certain chance and none below a zero one.
pub proof fn certain_and_impossible(c: Chance, x: u64)
    ensures
        c.threshold >= CHANCE_ONE ==> hits(c, x),
        c.threshold == 0 ==> !hits(c, x),
{
    assert((x >> 11u64) < 0x20_0000_0000_0000u64) by (bit_vector);
}

/// A HotSet key lies in the hot region when `hot_prob` is certain, and in the
/// cold region when `hot_prob` is zero and the hot region is not everything.
pub proof fn hot_set_regions(o: GeneratorModel, n: GeneratorModel, key: u64, hot_fraction: Chance, hot_prob: Chance)
    requires
        step_facts(o, n, key),
        o.workload == (Workload::HotSet { hot_fraction, hot_prob }),
    ensures
        hot_prob.threshold >= CHANCE_ONE ==> key < hot_size(o.universe, hot_fraction),
        hot_prob.threshold == 0 && hot_size(o.universe, hot_fraction) < o.universe
            ==> hot_size(o.universe, hot_fraction) <= key < o.universe,
{
    let d = choose|d: Draws| #[trigger] step_of(o.workload, o.universe, n.operation_count, o.insert_counter, o.state, d) == (key, n.state);
    certain_and_impossible(hot_prob, d.coin);
    assert(key == hotset_spec(o.universe, hot_fraction, hot_prob, d.coin, d.pick));
}

/// With `churn_rate` zero the WorkingSetChurn window never moves.
pub proof fn churn_zero_keeps_window(o: GeneratorModel, n: GeneratorModel, key: u64, working_set_size: u64, churn_rate: Chance, base: u64)
    requires
        step_facts(o, n, key),
        o.workload == (Workload::WorkingSetChurn { working_set_size, churn_rate }),
        o.state == (WorkloadState::Window { base }),
        churn_rate.threshold == 0,
    ensures
        n.state == (WorkloadState::Window { base }),
{
    let d = choose|d: Draws| #[trigger] step_of(o.workload, o.universe, n.operation_count, o.insert_counter, o.state, d) == (key, n.state);
    certain_and_impossible(churn_rate, d.coin);
    assert(window_spec(o.universe, working_set_size, churn_rate, base, d.coin) == base);
}

/// With `burst_prob` certain, an idle Correlated generator starts a burst at
/// the key it returns, with `burst_len - 1` keys left.
pub proof fn certain_burst_starts(o: GeneratorModel, n: GeneratorModel, key: u64, stride: u64, burst_len: u64, burst_prob: Chance, start: u64)
    requires
        step_facts(o, n, key),
        o.workload == (Workload::Correlated { stride, burst_len, burst_prob }),
        o.state == (WorkloadState::Burst { remaining: 0, start }),
        burst_prob.threshold >= CHANCE_ONE,
    ensures
        n.state == (WorkloadState::Burst { remaining: if burst_len == 0 { 0 } else { (burst_len - 1) as u64 }, start: key }),
{
    let d = choose|d: Draws| #[trigger] step_of(o.workload, o.universe, n.operation_count, o.insert_counter, o.state, d) == (key, n.state);
    certain_and_impossible(burst_prob, d.coin);
}

/// With `scan_fraction` certain, a ScanResistance generator that is not
/// scanning starts a scan at the key it returns, with the rest of the scan
/// left.
pub proof fn certain_scan_starts(
    o: GeneratorModel,
    n: GeneratorModel,
    key: u64,
    scan_fraction: Chance,
    scan_length: u64,
    point_exponent: crate::workload::Scaled,
    remaining: u64,
    start: u64,
)
    requires
        step_facts(o, n, key),
        o.workload == (Workload::ScanResistance { scan_fraction, scan_length, point_exponent }),
        o.state == (WorkloadState::ScanPhase { in_scan: false, remaining, start }),
        scan_fraction.threshold >= CHANCE_ONE,
    ensures
        n.state == (WorkloadState::ScanPhase {
            in_scan: scan_len(scan_length) > 1,
            remaining: (scan_len(scan_length) - 1) as u64,
            start: key,
        }),
{
    let d = choose|d: Draws| #[trigger] step_of(o.workload, o.universe, n.operation_count, o.insert_counter, o.state, d) == (key, n.state);
    certain_and_impossible(scan_fraction, d.coin);
    assert(o.universe >= 1);
    vstd::arithmetic::div_mod::lemma_small_mod((d.pick % o.universe) as nat, o.universe as nat);
}

} // verus!
