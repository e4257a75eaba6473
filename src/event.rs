//! Cache access events: a key, an operation, and optional weight and timestamp.
use vstd::prelude::*;

verus! {

/// Cache operation type.
#[derive(Debug, Clone, Copy, PartialEq, Eq, Structural)]
pub enum Op {
    /// Cache lookup.
    Get,
    /// Insert or update a key.
    Insert,
    /// Remove a key.
    Delete,
}

impl Default for Op {
    /// A source that does not say otherwise issues lookups.
    fn default() -> (r: Op)
        ensures
            r == Op::Get,
    {
        Op::Get
    }
}

/// A cache access event in a trace.
#[derive(Debug, Clone, Copy, PartialEq, Eq, Structural)]
pub struct Event {
    /// Cache key (application-defined).
    pub key: u64,
    /// Operation type.
    pub op: Op,
    /// Optional weight for size-aware policies.
    pub weight: Option<u32>,
    /// Optional timestamp for time-aware policies.
    pub ts: Option<u64>,
}

/// The event with the given key and operation, and neither weight nor timestamp.
pub open spec fn plain_event(key: u64, op: Op) -> Event {
    Event { key, op, weight: None, ts: None }
}

impl Event {
    /// Create a Get event (most common case).
    pub fn get(key: u64) -> (r: Event)
        ensures
            r == plain_event(key, Op::Get),
    {
        Event { key, op: Op::Get, weight: None, ts: None }
    }

    /// Create an Insert event.
    pub fn insert(key: u64) -> (r: Event)
        ensures
            r == plain_event(key, Op::Insert),
    {
        Event { key, op: Op::Insert, weight: None, ts: None }
    }

    /// Create a Delete event.
    pub fn delete(key: u64) -> (r: Event)
        ensures
            r == plain_event(key, Op::Delete),
    {
        Event { key, op: Op::Delete, weight: None, ts: None }
    }

    /// The same event, carrying the given weight.
    pub fn with_weight(self, weight: u32) -> (r: Event)
        ensures
            r == (Event { weight: Some(weight), ..self }),
    {
        Event { weight: Some(weight), ..self }
    }

    /// The same event, carrying the given timestamp.
    pub fn with_ts(self, ts: u64) -> (r: Event)
        ensures
            r == (Event { ts: Some(ts), ..self }),
    {
        Event { ts: Some(ts), ..self }
    }
}

} // verus!
