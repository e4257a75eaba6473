//! Trace replay: drains an event source through a cache model, counting hits,
//! misses and inserts.
use vstd::prelude::*;
use crate::event::{Event, Op};
use crate::metrics::{HitStats, no_hits};
use crate::model::CacheModel;
use crate::source::EventSource;

verus! {

/// The counters after one event with operation `op`, whose lookup (for a Get)
/// hit or missed; with `read_through`, a missed Get is backfilled and its
/// insert counted.
pub open spec fn tally(s: HitStats, op: Op, hit: bool, read_through: bool) -> HitStats {
    match op {
        Op::Get => if hit {
            HitStats { hits: (s.hits + 1) as u64, ..s }
        } else if read_through {
            HitStats { misses: (s.misses + 1) as u64, inserts: (s.inserts + 1) as u64, ..s }
        } else {
            HitStats { misses: (s.misses + 1) as u64, ..s }
        },
        Op::Insert => HitStats { inserts: (s.inserts + 1) as u64, ..s },
        Op::Delete => s,
    }
}

/// The counters after replaying `trace`, a list of operations with the
/// outcome of each Get's lookup, from all-zero counters.
pub open spec fn replay(trace: Seq<(Op, bool)>, read_through: bool) -> HitStats
    decreases trace.len(),
{
    if trace.len() == 0 {
        no_hits()
    } else {
        let (op, hit) = trace.last();
        tally(replay(trace.drop_last(), read_through), op, hit, read_through)
    }
}

/// A replay counts each lookup once and each insert at most once, and no
/// updates.
pub proof fn replay_bounded(trace: Seq<(Op, bool)>, read_through: bool)
    ensures
        replay(trace, read_through).hits + replay(trace, read_through).misses <= trace.len(),
        replay(trace, read_through).inserts <= trace.len(),
        replay(trace, read_through).updates == 0,
    decreases trace.len(),
{
    if trace.len() > 0 {
        replay_bounded(trace.drop_last(), read_through);
    }
}

/// The two replay policies count the same hits and misses; read-through
/// adds one insert per miss to the explicit inserts.
pub proof fn read_through_adds_miss_inserts(trace: Seq<(Op, bool)>)
    requires
        trace.len() <= u64::MAX,
    ensures
        replay(trace, true).hits == replay(trace, false).hits,
        replay(trace, true).misses == replay(trace, false).misses,
        replay(trace, true).inserts == replay(trace, false).inserts + replay(trace, false).misses,
    decreases trace.len(),
{
    if trace.len() > 0 {
        read_through_adds_miss_inserts(trace.drop_last());
        replay_bounded(trace.drop_last(), true);
        replay_bounded(trace.drop_last(), false);
        replay_bounded(trace, true);
    }
}

/// Count one event's outcome into `stats`.
pub fn tally_event(stats: &mut HitStats, op: Op, hit: bool, read_through: bool)
    requires
        old(stats).hits < u64::MAX,
        old(stats).misses < u64::MAX,
        old(stats).inserts < u64::MAX,
    ensures
        *final(stats) == tally(*old(stats), op, hit, read_through),
{
    match op {
        Op::Get => {
            if hit {
                stats.hits = stats.hits + 1;
            } else {
                stats.misses = stats.misses + 1;
                if read_through {
                    stats.inserts = stats.inserts + 1;
                }
            }
        },
        Op::Insert => {
            stats.inserts = stats.inserts + 1;
        },
        Op::Delete => {},
    }
}

/// The (operation, lookup outcome) pairs of events `es` answered `hs`.
pub open spec fn outcomes(es: Seq<Event>, hs: Seq<bool>) -> Seq<(Op, bool)> {
    Seq::new(es.len(), |i: int| (es[i].op, hs[i]))
}

/// How the cache handles event `e`: from `c` to `c2`, through `m` after the
/// lookup of a Get, whose answer is `hit`.  A Get looks its key up and, when
/// it misses under `read_through`, inserts it; an Insert inserts its key; a
/// Delete deletes its key.  Only a Get can hit.
pub open spec fn handled<C: CacheModel>(c: C, m: C, c2: C, e: Event, hit: bool, read_through: bool) -> bool {
    match e.op {
        Op::Get => c.looked_up(&m, e.key, hit) && (if !hit && read_through {
            m.inserted(&c2, e.key)
        } else {
            c2 == m
        }),
        Op::Insert => !hit && m == c && c.inserted(&c2, e.key),
        Op::Delete => !hit && m == c && c.deleted(&c2, e.key),
    }
}

/// `es` were pulled from the sources `ss` in turn while the caches `cs`
/// (through `ms`) handled them, their lookups answering `hs`.
pub open spec fn chain<C: CacheModel, S: EventSource>(
    cs: Seq<C>,
    ms: Seq<C>,
    ss: Seq<S>,
    es: Seq<Event>,
    hs: Seq<bool>,
    read_through: bool,
) -> bool {
    &&& cs.len() == es.len() + 1
    &&& ss.len() == es.len() + 1
    &&& ms.len() == es.len()
    &&& hs.len() == es.len()
    &&& forall|i: int| 0 <= i < es.len() ==> {
        &&& #[trigger] ss[i].stepped(&ss[i + 1], Some(es[i]))
        &&& handled(cs[i], ms[i], cs[i + 1], es[i], hs[i], read_through)
    }
}

/// Replaying from cache `c0` and source `s0` to cache `c1` and source `s1`
/// pulled the events `es` in order, whose lookups answered `hs`, and then,
/// when `ended`, one `None`.
pub open spec fn replayed<C: CacheModel, S: EventSource>(
    c0: C,
    s0: S,
    c1: C,
    s1: S,
    es: Seq<Event>,
    hs: Seq<bool>,
    ended: bool,
    read_through: bool,
) -> bool {
    exists|cs: Seq<C>, ms: Seq<C>, ss: Seq<S>| {
        &&& #[trigger] chain(cs, ms, ss, es, hs, read_through)
        &&& cs[0] == c0
        &&& ss[0] == s0
        &&& cs.last() == c1
        &&& if ended { ss.last().stepped(&s1, None) } else { ss.last() == s1 }
    }
}

/// Drive one event through the cache and return whether its lookup hit.
fn apply<C: CacheModel>(cache: &mut C, event: Event, read_through: bool) -> (hit: bool)
    ensures
        exists|m: C| handled(*old(cache), m, *final(cache), event, hit, read_through),
{
    match event.op {
        Op::Get => {
            let hit = cache.get(event.key);
            let ghost m = *cache;
            if !hit && read_through {
                cache.insert(event.key);
            }
            assert(handled(*old(cache), m, *cache, event, hit, read_through));
            hit
        },
        Op::Insert => {
            cache.insert(event.key);
            assert(handled(*old(cache), *old(cache), *cache, event, false, read_through));
            false
        },
        Op::Delete => {
            cache.delete(event.key);
            assert(handled(*old(cache), *old(cache), *cache, event, false, read_through));
            false
        },
    }
}

/// A chain extended by one more event is a chain.
proof fn chain_push<C: CacheModel, S: EventSource>(
    cs: Seq<C>,
    ms: Seq<C>,
    ss: Seq<S>,
    es: Seq<Event>,
    hs: Seq<bool>,
    read_through: bool,
    c: C,
    m: C,
    s: S,
    e: Event,
    h: bool,
)
    requires
        chain(cs, ms, ss, es, hs, read_through),
        ss.last().stepped(&s, Some(e)),
        handled(cs.last(), m, c, e, h, read_through),
    ensures
        chain(cs.push(c), ms.push(m), ss.push(s), es.push(e), hs.push(h), read_through),
{
    let cs2 = cs.push(c);
    let ms2 = ms.push(m);
    let ss2 = ss.push(s);
    let es2 = es.push(e);
    let hs2 = hs.push(h);
    assert forall|i: int| 0 <= i < es2.len() implies {
        &&& #[trigger] ss2[i].stepped(&ss2[i + 1], Some(es2[i]))
        &&& handled(cs2[i], ms2[i], cs2[i + 1], es2[i], hs2[i], read_through)
    } by {
        if i < es.len() {
            assert(ss[i].stepped(&ss[i + 1], Some(es[i])));
            assert(ss2[i] == ss[i] && ss2[i + 1] == ss[i + 1] && es2[i] == es[i]);
            assert(cs2[i] == cs[i] && cs2[i + 1] == cs[i + 1] && ms2[i] == ms[i] && hs2[i] == hs[i]);
        } else {
            assert(ss2[i] == ss.last());
            assert(cs2[i] == cs.last());
        }
    }
}

/// Replay up to `limit` events from `source` through `cache`; says whether
/// the source ended first.
pub fn replay_upto<C: CacheModel, S: EventSource>(
    cache: &mut C,
    source: &mut S,
    read_through: bool,
    limit: u64,
) -> (r: (HitStats, bool))
    requires
        old(source).ready(),
    ensures
        final(source).ready(),
        exists|es: Seq<Event>, hs: Seq<bool>| {
            &&& replayed(*old(cache), *old(source), *final(cache), *final(source), es, hs, r.1, read_through)
            &&& es.len() <= limit
            &&& (r.1 || es.len() == limit)
            &&& r.0 == replay(#[trigger] outcomes(es, hs), read_through)
        },
        r.0.hits + r.0.misses <= limit,
{
    let mut stats = HitStats { hits: 0, misses: 0, inserts: 0, updates: 0 };
    let ghost c0 = *cache;
    let ghost s0 = *source;
    let ghost mut cs: Seq<C> = seq![*cache];
    let ghost mut ms: Seq<C> = Seq::empty();
    let ghost mut ss: Seq<S> = seq![*source];
    let ghost mut es: Seq<Event> = Seq::empty();
    let ghost mut hs: Seq<bool> = Seq::empty();
    let mut n: u64 = 0;
    let mut ended = false;
    while n < limit && !ended
        invariant
            ended ==> ss.last().stepped(&*source, None),
            !ended ==> ss.last() == *source,
            source.ready(),
            n <= limit,
            chain(cs, ms, ss, es, hs, read_through),
            cs[0] == c0,
            ss[0] == s0,
            c0 == *old(cache),
            s0 == *old(source),
            cs.last() == *cache,
            es.len() == n,
            stats == replay(outcomes(es, hs), read_through),
        decreases limit - n + (if ended { 0int } else { 1int }),
    {
        let ghost sb = *source;
        let next = source.next_event();
        match next {
            None => {
                ended = true;
            },
            Some(event) => {
                proof {
                    replay_bounded(outcomes(es, hs), read_through);
                }
                let ghost cb = *cache;
                let hit = apply(cache, event, read_through);
                tally_event(&mut stats, event.op, hit, read_through);
                proof {
                    let m = choose|m: C| handled(cb, m, *cache, event, hit, read_through);
                    let es2 = es.push(event);
                    let hs2 = hs.push(hit);
                    assert(outcomes(es2, hs2).drop_last() =~= outcomes(es, hs));
                    assert(outcomes(es2, hs2).last() == (event.op, hit));
                    let cs2 = cs.push(*cache);
                    let ms2 = ms.push(m);
                    let ss2 = ss.push(*source);
                    chain_push(cs, ms, ss, es, hs, read_through, *cache, m, *source, event, hit);
                    cs = cs2;
                    ms = ms2;
                    ss = ss2;
                    es = es2;
                    hs = hs2;
                }
                n = n + 1;
            },
        }
    }
    proof {
        replay_bounded(outcomes(es, hs), read_through);
        assert(replayed(*old(cache), *old(source), *cache, *source, es, hs, ended, read_through));
        assert({
            &&& replayed(*old(cache), *old(source), *cache, *source, es, hs, ended, read_through)
            &&& es.len() <= limit
            &&& (ended || es.len() == limit)
            &&& stats == replay(outcomes(es, hs), read_through)
        });
    }
    (stats, ended)
}

/// A whole replay: from cache `c0` and source `s0` to cache `c1` and source
/// `s1`, the events pulled until the source returned `None` (or until
/// `u64::MAX` events) were handled by the cache and counted into `r`.
pub open spec fn ran<C: CacheModel, S: EventSource>(c0: C, s0: S, c1: C, s1: S, r: HitStats, read_through: bool) -> bool {
    exists|es: Seq<Event>, hs: Seq<bool>| {
        &&& (replayed(c0, s0, c1, s1, es, hs, true, read_through)
            || (replayed(c0, s0, c1, s1, es, hs, false, read_through) && es.len() == u64::MAX))
        &&& r == replay(#[trigger] outcomes(es, hs), read_through)
    }
}

/// Replay a trace with read-through semantics: a Get that misses is
/// immediately inserted, and that insert counted.  Replay stops when the
/// source ends, or after `u64::MAX` events, so the counters cannot overflow.
pub fn simulate<C: CacheModel, S: EventSource>(cache: &mut C, source: &mut S) -> (r: HitStats)
    requires
        old(source).ready(),
    ensures
        final(source).ready(),
        ran(*old(cache), *old(source), *final(cache), *final(source), r, true),
        r.hits + r.misses <= u64::MAX,
{
    let (stats, ended) = replay_upto(cache, source, true, u64::MAX);
    stats
}

/// Replay a trace without backfilling: only explicit Insert events insert.
/// Replay stops when the source ends, or after `u64::MAX` events.
pub fn simulate_explicit<C: CacheModel, S: EventSource>(cache: &mut C, source: &mut S) -> (r: HitStats)
    requires
        old(source).ready(),
    ensures
        final(source).ready(),
        ran(*old(cache), *old(source), *final(cache), *final(source), r, false),
        r.hits + r.misses <= u64::MAX,
{
    let (stats, ended) = replay_upto(cache, source, false, u64::MAX);
    stats
}

} // verus!
