//! Key-only trace format: one decimal key per line, read as Get events.
//! Blank and unparsable lines are skipped.
use vstd::prelude::*;
use crate::event::{plain_event, Event, Op};
use crate::source::EventSource;
use crate::text::{
    chars_of, events_from, events_step, parse_bounded, parse_u64, stream_step, trim, trimmed,
    LineCursor,
};

verus! {

/// The event a key-only line stands for.
pub open spec fn key_only_line(line: Seq<char>) -> Option<Event> {
    match parse_u64(trimmed(line)) {
        Some(k) => Some(plain_event(k, Op::Get)),
        None => None,
    }
}

/// `key_only_line` as a value.
pub open spec fn key_only_parser() -> spec_fn(Seq<char>) -> Option<Event> {
    |l: Seq<char>| key_only_line(l)
}

fn parse_key_only(line: &Vec<char>) -> (r: Option<Event>)
    ensures
        r == key_only_line(line@),
{
    let t = trim(line);
    match parse_bounded(&t, u64::MAX) {
        Some(k) => Some(Event::get(k)),
        None => None,
    }
}

/// Reads traces in key-only format.
pub struct KeyOnlyReader {
    text: String,
    lines: LineCursor,
}

impl KeyOnlyReader {
    pub closed spec fn wf(&self) -> bool {
        self.lines.wf() && self.lines.text() == self.text@
    }

    /// The trace text.
    pub closed spec fn text(&self) -> Seq<char> {
        self.text@
    }

    /// The events still to come.
    pub closed spec fn pending(&self) -> Seq<Event> {
        events_from(self.lines.text(), self.lines.pos(), key_only_parser())
    }

    /// A reader over the whole trace `text`.
    pub fn new(text: &str) -> (r: KeyOnlyReader)
        ensures
            r.wf(),
            r.text() == text@,
            r.pending() == events_from(text@, 0, key_only_parser()),
    {
        KeyOnlyReader { text: text.to_owned(), lines: LineCursor::new(chars_of(text)) }
    }

    /// The trace text being read.
    pub fn inner(&self) -> (r: &String)
        ensures
            r@ == self.text(),
    {
        &self.text
    }

    /// Consumes the reader and returns the trace text.
    pub fn into_inner(self) -> (r: String)
        ensures
            r@ == self.text(),
    {
        self.text
    }

    /// The next event of the trace, or `None` once all are read.
    pub fn read_event(&mut self) -> (r: Option<Event>)
        requires
            old(self).wf(),
        ensures
            final(self).wf(),
            final(self).text() == old(self).text(),
            stream_step(old(self).pending(), final(self).pending(), r),
    {
        let ghost s = self.lines.text();
        let ghost before = self.pending();
        loop
            invariant
                self.wf(),
                self.text() == old(self).text(),
                self.lines.text() == s,
                self.pending() == before,
                before == old(self).pending(),
            decreases s.len() - self.lines.pos(),
        {
            let ghost i = self.lines.pos();
            match self.lines.next_line() {
                None => {
                    return None;
                },
                Some(line) => {
                    proof {
                        events_step(s, i, key_only_parser());
                    }
                    if let Some(ev) = parse_key_only(&line) {
                        proof {
                            let rest = events_from(s, self.lines.pos(), key_only_parser());
                            assert((seq![ev] + rest).drop_first() =~= rest);
                        }
                        return Some(ev);
                    }
                },
            }
        }
    }
}

impl EventSource for KeyOnlyReader {
    open spec fn ready(&self) -> bool {
        self.wf()
    }

    open spec fn stepped(&self, after: &Self, r: Option<Event>) -> bool {
        after.text() == self.text()
            && stream_step(self.pending(), after.pending(), r)
    }

    fn next_event(&mut self) -> (r: Option<Event>) {
        self.read_event()
    }
}

/// The decimal digits of `n`, as ASCII bytes.
pub open spec fn decimal_bytes(n: nat) -> Seq<u8>
    decreases n,
{
    if n < 10 {
        seq![(48 + n) as u8]
    } else {
        decimal_bytes(n / 10).push((48 + n % 10) as u8)
    }
}

/// Append the decimal digits of `n` to `out`.
pub fn push_decimal(out: &mut Vec<u8>, n: u64)
    ensures
        final(out)@ == old(out)@ + decimal_bytes(n as nat),
    decreases n,
{
    if n >= 10 {
        push_decimal(out, n / 10);
    }
    out.push((48 + n % 10) as u8);
    assert(final(out)@ =~= old(out)@ + decimal_bytes(n as nat));
}

/// Append the bytes of `lit` to `out`.
pub fn push_bytes(out: &mut Vec<u8>, lit: Vec<u8>)
    ensures
        final(out)@ == old(out)@ + lit@,
{
    let mut i: usize = 0;
    while i < lit.len()
        invariant
            i <= lit@.len(),
            out@ == old(out)@ + lit@.subrange(0, i as int),
        decreases lit@.len() - i,
    {
        out.push(lit[i]);
        i = i + 1;
        assert(out@ =~= old(out)@ + lit@.subrange(0, i as int));
    }
    assert(lit@.subrange(0, lit@.len() as int) =~= lit@);
}

/// Writes traces in key-only format into a byte buffer.
pub struct KeyOnlyWriter {
    out: Vec<u8>,
}

impl KeyOnlyWriter {
    /// The bytes written so far.
    pub closed spec fn written(&self) -> Seq<u8> {
        self.out@
    }

    /// A writer appending to `out`.
    pub fn new(out: Vec<u8>) -> (r: KeyOnlyWriter)
        ensures
            r.written() == out@,
    {
        KeyOnlyWriter { out }
    }

    /// Write the key of `event` on a line of its own.
    pub fn write_event(&mut self, event: &Event)
        ensures
            final(self).written() == old(self).written() + decimal_bytes(event.key as nat).push(10u8),
    {
        self.write_key(event.key);
    }

    /// Write `key` on a line of its own.
    pub fn write_key(&mut self, key: u64)
        ensures
            final(self).written() == old(self).written() + decimal_bytes(key as nat).push(10u8),
    {
        push_decimal(&mut self.out, key);
        self.out.push(10u8);
        assert(self.out@ =~= old(self).written() + decimal_bytes(key as nat).push(10u8));
    }

    /// Nothing is buffered apart from the output itself; kept for symmetry
    /// with writers over files.
    pub fn flush(&mut self)
        ensures
            final(self).written() == old(self).written(),
    {
    }

    /// Consumes the writer and returns the bytes written.
    pub fn into_inner(self) -> (r: Vec<u8>)
        ensures
            r@ == self.written(),
    {
        self.out
    }
}

} // verus!
