//! LIRS trace format: one block number per line, read as Get events.
//! Blank lines, `#` comments and unparsable lines are skipped.
use vstd::prelude::*;
use crate::event::{plain_event, Event, Op};
use crate::source::EventSource;
use crate::text::{
    chars_of, events_from, events_step, parse_bounded, parse_u64, stream_step, trim, trimmed,
    LineCursor,
};

verus! {

/// The event a LIRS line stands for.
pub open spec fn lirs_line(line: Seq<char>) -> Option<Event> {
    let t = trimmed(line);
    if t.len() == 0 || t[0] == '#' {
        None
    } else {
        match parse_u64(t) {
            Some(k) => Some(plain_event(k, Op::Get)),
            None => None,
        }
    }
}

/// `lirs_line` as a value.
pub open spec fn lirs_parser() -> spec_fn(Seq<char>) -> Option<Event> {
    |l: Seq<char>| lirs_line(l)
}

fn parse_lirs(line: &Vec<char>) -> (r: Option<Event>)
    ensures
        r == lirs_line(line@),
{
    let t = trim(line);
    if t.len() == 0 || t[0] == '#' {
        return None;
    }
    match parse_bounded(&t, u64::MAX) {
        Some(k) => Some(Event::get(k)),
        None => None,
    }
}

/// Reads traces in LIRS format (one block number per line).
pub struct LirsReader {
    text: String,
    lines: LineCursor,
}

impl LirsReader {
    pub closed spec fn wf(&self) -> bool {
        self.lines.wf() && self.lines.text() == self.text@
    }

    /// The trace text.
    pub closed spec fn text(&self) -> Seq<char> {
        self.text@
    }

    /// The events still to come.
    pub closed spec fn pending(&self) -> Seq<Event> {
        events_from(self.lines.text(), self.lines.pos(), lirs_parser())
    }

    /// A reader over the whole trace `text`.
    pub fn new(text: &str) -> (r: LirsReader)
        ensures
            r.wf(),
            r.text() == text@,
            r.pending() == events_from(text@, 0, lirs_parser()),
    {
        LirsReader { text: text.to_owned(), lines: LineCursor::new(chars_of(text)) }
    }

    /// The trace text being read.
    pub fn inner(&self) -> (r: &String)
        ensures
            r@ == self.text(),
    {
        &self.text
    }

    /// Consumes the reader and returns the trace text.
    pub fn into_inner(self) -> (r: String)
        ensures
            r@ == self.text(),
    {
        self.text
    }

    /// The next event of the trace, or `None` once all are read.
    pub fn read_event(&mut self) -> (r: Option<Event>)
        requires
            old(self).wf(),
        ensures
            final(self).wf(),
            final(self).text() == old(self).text(),
            stream_step(old(self).pending(), final(self).pending(), r),
    {
        let ghost s = self.lines.text();
        let ghost before = self.pending();
        loop
            invariant
                self.wf(),
                self.text() == old(self).text(),
                self.lines.text() == s,
                self.pending() == before,
                before == old(self).pending(),
            decreases s.len() - self.lines.pos(),
        {
            let ghost i = self.lines.pos();
            match self.lines.next_line() {
                None => {
                    return None;
                },
                Some(line) => {
                    proof {
                        events_step(s, i, lirs_parser());
                    }
                    if let Some(ev) = parse_lirs(&line) {
                        proof {
                            let rest = events_from(s, self.lines.pos(), lirs_parser());
                            assert((seq![ev] + rest).drop_first() =~= rest);
                        }
                        return Some(ev);
                    }
                },
            }
        }
    }
}

impl EventSource for LirsReader {
    open spec fn ready(&self) -> bool {
        self.wf()
    }

    open spec fn stepped(&self, after: &Self, r: Option<Event>) -> bool {
        after.text() == self.text()
            && stream_step(self.pending(), after.pending(), r)
    }

    fn next_event(&mut self) -> (r: Option<Event>) {
        self.read_event()
    }
}

} // verus!
