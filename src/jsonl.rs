//! JSON Lines trace output: one compact JSON object per event, with the
//! fields `key`, then `op` unless it is a Get, then `weight` and `ts` when
//! present.
use vstd::prelude::*;
use crate::event::{Event, Op};
use crate::key_only::{decimal_bytes, push_bytes, push_decimal};

verus! {

/// The JSON line of `e`, newline included.
pub open spec fn json_line(e: Event) -> Seq<u8> {
    seq![123u8, 34u8, 107u8, 101u8, 121u8, 34u8, 58u8] + decimal_bytes(e.key as nat)
        + match e.op {
            Op::Get => Seq::empty(),
            Op::Insert => seq![44u8, 34u8, 111u8, 112u8, 34u8, 58u8, 34u8, 105u8, 110u8, 115u8, 101u8, 114u8, 116u8, 34u8],
            Op::Delete => seq![44u8, 34u8, 111u8, 112u8, 34u8, 58u8, 34u8, 100u8, 101u8, 108u8, 101u8, 116u8, 101u8, 34u8],
        }
        + match e.weight {
            Some(w) => seq![44u8, 34u8, 119u8, 101u8, 105u8, 103u8, 104u8, 116u8, 34u8, 58u8] + decimal_bytes(w as nat),
            None => Seq::empty(),
        }
        + match e.ts {
            Some(t) => seq![44u8, 34u8, 116u8, 115u8, 34u8, 58u8] + decimal_bytes(t as nat),
            None => Seq::empty(),
        }
        + seq![125u8, 10u8]
}

/// Writes traces in JSON Lines format into a byte buffer.
pub struct JsonlWriter {
    out: Vec<u8>,
}

impl JsonlWriter {
    /// The bytes written so far.
    pub closed spec fn written(&self) -> Seq<u8> {
        self.out@
    }

    /// A writer appending to `out`.
    pub fn new(out: Vec<u8>) -> (r: JsonlWriter)
        ensures
            r.written() == out@,
    {
        JsonlWriter { out }
    }

    /// Write `event` as one JSON line.
    pub fn write_event(&mut self, event: &Event)
        ensures
            final(self).written() == old(self).written() + json_line(*event),
    {
        push_bytes(&mut self.out, vec![123u8, 34u8, 107u8, 101u8, 121u8, 34u8, 58u8]);
        push_decimal(&mut self.out, event.key);
        match event.op {
            Op::Get => {},
            Op::Insert => push_bytes(&mut self.out, vec![44u8, 34u8, 111u8, 112u8, 34u8, 58u8, 34u8, 105u8, 110u8, 115u8, 101u8, 114u8, 116u8, 34u8]),
            Op::Delete => push_bytes(&mut self.out, vec![44u8, 34u8, 111u8, 112u8, 34u8, 58u8, 34u8, 100u8, 101u8, 108u8, 101u8, 116u8, 101u8, 34u8]),
        }
        if let Some(w) = event.weight {
            push_bytes(&mut self.out, vec![44u8, 34u8, 119u8, 101u8, 105u8, 103u8, 104u8, 116u8, 34u8, 58u8]);
            push_decimal(&mut self.out, w as u64);
        }
        if let Some(t) = event.ts {
            push_bytes(&mut self.out, vec![44u8, 34u8, 116u8, 115u8, 34u8, 58u8]);
            push_decimal(&mut self.out, t);
        }
        push_bytes(&mut self.out, vec![125u8, 10u8]);
        assert(self.out@ =~= old(self).written() + json_line(*event));
    }

    /// Nothing is buffered apart from the output itself; kept for symmetry
    /// with writers over files.
    pub fn flush(&mut self)
        ensures
            final(self).written() == old(self).written(),
    {
    }

    /// Consumes the writer and returns the bytes written.
    pub fn into_inner(self) -> (r: Vec<u8>)
        ensures
            r@ == self.written(),
    {
        self.out
    }
}

} // verus!
