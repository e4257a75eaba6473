//! Pull-based streams of cache events, from trace readers or generators.
use vstd::prelude::*;
use crate::event::Event;
use crate::text::stream_step;

verus! {

/// Stream of cache events from a trace or generator.
///
/// `next_event` returns `None` at the end of the stream; a finite source keeps
/// returning `None` from then on.
pub trait EventSource {
    /// The source's internal consistency, which its constructors establish;
    /// sources without an invariant of their own are always ready.
    open spec fn ready(&self) -> bool {
        true
    }

    /// What one call of `next_event` does: from `self` to `after`, returning
    /// `r`.  Sources that state nothing of their steps admit any.
    open spec fn stepped(&self, after: &Self, r: Option<Event>) -> bool {
        true
    }

    /// Returns the next event, or `None` at end-of-trace.
    fn next_event(&mut self) -> (r: Option<Event>)
        requires
            old(self).ready(),
        ensures
            final(self).ready(),
            old(self).stepped(final(self), r),
    ;

    /// Hint for the total event count still to come (for progress reporting).
    ///
    /// `None` when the count is unknown, as for unbounded generators.
    fn size_hint(&self) -> Option<usize>
        requires
            self.ready(),
    {
        None
    }
}

/// Any iterator of events is an event source.
impl<I> EventSource for I where I: Iterator<Item = Event> {
    fn next_event(&mut self) -> Option<Event> {
        self.next()
    }
}

/// A finite source over a list of events, handed out in order.
pub struct EventList {
    events: Vec<Event>,
    pos: usize,
}

impl EventList {
    /// The cursor lies within the list.
    pub closed spec fn wf(&self) -> bool {
        self.pos <= self.events@.len()
    }

    /// The events still to come.
    pub closed spec fn pending(&self) -> Seq<Event> {
        self.events@.subrange(self.pos as int, self.events@.len() as int)
    }

    /// A source handing out `events` in order.
    pub fn new(events: Vec<Event>) -> (r: EventList)
        ensures
            r.wf(),
            r.pending() == events@,
    {
        let r = EventList { events, pos: 0 };
        assert(r.pending() =~= r.events@);
        r
    }

    /// The number of events still to come.
    pub fn remaining(&self) -> (r: usize)
        requires
            self.wf(),
        ensures
            r == self.pending().len(),
    {
        self.events.len() - self.pos
    }
}

impl EventSource for EventList {
    open spec fn ready(&self) -> bool {
        self.wf()
    }

    open spec fn stepped(&self, after: &Self, r: Option<Event>) -> bool {
        stream_step(self.pending(), after.pending(), r)
    }

    fn next_event(&mut self) -> (r: Option<Event>) {
        if self.pos >= self.events.len() {
            return None;
        }
        let e = self.events[self.pos];
        self.pos = self.pos + 1;
        assert(self.pending() =~= old(self).pending().drop_first());
        Some(e)
    }

    fn size_hint(&self) -> (r: Option<usize>)
        ensures
            r == Some(self.pending().len() as usize),
    {
        Some(self.remaining())
    }
}

} // verus!
