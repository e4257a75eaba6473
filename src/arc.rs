//! ARC trace format: `timestamp key [size]` separated by whitespace, read as
//! Get events weighted by the size when there is one.  Blank lines,
//! `#` comments and lines without a parsable key are skipped.
use vstd::prelude::*;
use crate::event::{Event, Op};
use crate::source::EventSource;
use crate::text::{
    chars_of, events_from, events_step, nth_word, parse_bounded, parse_u32, parse_u64,
    stream_step, trim, trimmed, words, LineCursor,
};

verus! {

/// The event an ARC line stands for.
pub open spec fn arc_line(line: Seq<char>) -> Option<Event> {
    let t = trimmed(line);
    let w = words(t);
    if t.len() == 0 || t[0] == '#' || w.len() < 2 {
        None
    } else {
        match parse_u64(w[1]) {
            Some(k) => Some(Event {
                key: k,
                op: Op::Get,
                weight: if w.len() >= 3 { parse_u32(w[2]) } else { None },
                ts: None,
            }),
            None => None,
        }
    }
}

/// `arc_line` as a value.
pub open spec fn arc_parser() -> spec_fn(Seq<char>) -> Option<Event> {
    |l: Seq<char>| arc_line(l)
}

fn parse_arc(line: &Vec<char>) -> (r: Option<Event>)
    ensures
        r == arc_line(line@),
{
    let t = trim(line);
    if t.len() == 0 || t[0] == '#' {
        return None;
    }
    let key_word = match nth_word(&t, 1) {
        Some(w) => w,
        None => return None,
    };
    let key = match parse_bounded(&key_word, u64::MAX) {
        Some(k) => k,
        None => return None,
    };
    let weight: Option<u32> = match nth_word(&t, 2) {
        Some(w) => match parse_bounded(&w, u32::MAX as u64) {
            Some(v) => Some(v as u32),
            None => None,
        },
        None => None,
    };
    let event = Event::get(key);
    match weight {
        Some(w) => Some(event.with_weight(w)),
        None => Some(event),
    }
}

/// Reads traces in ARC format (`timestamp key [size]`).
pub struct ArcReader {
    text: String,
    lines: LineCursor,
}

impl ArcReader {
    pub closed spec fn wf(&self) -> bool {
        self.lines.wf() && self.lines.text() == self.text@
    }

    /// The trace text.
    pub closed spec fn text(&self) -> Seq<char> {
        self.text@
    }

    /// The events still to come.
    pub closed spec fn pending(&self) -> Seq<Event> {
        events_from(self.lines.text(), self.lines.pos(), arc_parser())
    }

    /// A reader over the whole trace `text`.
    pub fn new(text: &str) -> (r: ArcReader)
        ensures
            r.wf(),
            r.text() == text@,
            r.pending() == events_from(text@, 0, arc_parser()),
    {
        ArcReader { text: text.to_owned(), lines: LineCursor::new(chars_of(text)) }
    }

    /// The trace text being read.
    pub fn inner(&self) -> (r: &String)
        ensures
            r@ == self.text(),
    {
        &self.text
    }

    /// Consumes the reader and returns the trace text.
    pub fn into_inner(self) -> (r: String)
        ensures
            r@ == self.text(),
    {
        self.text
    }

    /// The next event of the trace, or `None` once all are read.
    pub fn read_event(&mut self) -> (r: Option<Event>)
        requires
            old(self).wf(),
        ensures
            final(self).wf(),
            final(self).text() == old(self).text(),
            stream_step(old(self).pending(), final(self).pending(), r),
    {
        let ghost s = self.lines.text();
        let ghost before = self.pending();
        loop
            invariant
                self.wf(),
                self.text() == old(self).text(),
                self.lines.text() == s,
                self.pending() == before,
                before == old(self).pending(),
            decreases s.len() - self.lines.pos(),
        {
            let ghost i = self.lines.pos();
            match self.lines.next_line() {
                None => {
                    return None;
                },
                Some(line) => {
                    proof {
                        events_step(s, i, arc_parser());
                    }
                    if let Some(ev) = parse_arc(&line) {
                        proof {
                            let rest = events_from(s, self.lines.pos(), arc_parser());
                            assert((seq![ev] + rest).drop_first() =~= rest);
                        }
                        return Some(ev);
                    }
                },
            }
        }
    }
}

impl EventSource for ArcReader {
    open spec fn ready(&self) -> bool {
        self.wf()
    }

    open spec fn stepped(&self, after: &Self, r: Option<Event>) -> bool {
        after.text() == self.text()
            && stream_step(self.pending(), after.pending(), r)
    }

    fn next_event(&mut self) -> (r: Option<Event>) {
        self.read_event()
    }
}

} // verus!
