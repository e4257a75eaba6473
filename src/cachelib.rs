//! Cachelib trace format, comma-separated variant:
//! `timestamp,key,key_size,value_size,...` with configurable columns.
//! Numeric keys are used as they are; other keys are hashed.  The value size
//! becomes the event's weight.  Blank lines and `#` comments are skipped;
//! the header line is skipped whatever it holds.
use vstd::prelude::*;
use crate::event::{Event, Op};
use crate::source::EventSource;
use crate::csv::field;
use crate::text::{
    chars_of, events_from, events_step, is_word, next_line_start, nth_piece, parse_bounded,
    parse_u32, parse_u64, pieces, same_word, stream_step, trim, trimmed, LineCursor,
};

verus! {

/// Configuration of the Cachelib layout.
#[derive(Debug, Clone, Copy, PartialEq, Eq, Structural)]
pub struct CachelibConfig {
    /// Column index of the timestamp.
    pub timestamp_col: usize,
    /// Column index of the key.
    pub key_col: usize,
    /// Column index of the key size, if present.
    pub key_size_col: Option<usize>,
    /// Column index of the value size (the weight), if present.
    pub value_size_col: Option<usize>,
    /// Column index of the operation, if present.
    pub op_col: Option<usize>,
    /// Whether the first line is a header to skip.
    pub has_header: bool,
}

/// The default layout: `timestamp,key,key_size,value_size`, with a header.
pub open spec fn default_cachelib_parser_config() -> CachelibConfig {
    CachelibConfig {
        timestamp_col: 0,
        key_col: 1,
        key_size_col: Some(2),
        value_size_col: Some(3),
        op_col: None,
        has_header: true,
    }
}

impl Default for CachelibConfig {
    fn default() -> (r: CachelibConfig)
        ensures
            r == default_cachelib_parser_config(),
    {
        CachelibConfig {
            timestamp_col: 0,
            key_col: 1,
            key_size_col: Some(2),
            value_size_col: Some(3),
            op_col: None,
            has_header: true,
        }
    }
}

/// What std's `DefaultHasher`, freshly made, finishes with after hashing the
/// string `s`.
pub uninterp spec fn default_hash_of(s: Seq<char>) -> u64;

/// The operation an operation field names: `set`, `add` or `1` insert;
/// `delete`, `del` or `2` delete (any ASCII case); anything else is a lookup.
pub open spec fn cachelib_op(t: Seq<char>) -> Op {
    if is_word(t, seq!['s', 'e', 't']) || is_word(t, seq!['a', 'd', 'd']) || is_word(t, seq!['1']) {
        Op::Insert
    } else if is_word(t, seq!['d', 'e', 'l', 'e', 't', 'e']) || is_word(t, seq!['d', 'e', 'l'])
        || is_word(t, seq!['2']) {
        Op::Delete
    } else {
        Op::Get
    }
}

/// The key a key field stands for: its number, or else its hash.
pub open spec fn cachelib_key(f: Seq<char>) -> u64 {
    match parse_u64(f) {
        Some(k) => k,
        None => default_hash_of(f),
    }
}

/// The event a Cachelib line stands for under `cfg`.
pub open spec fn cachelib_line(cfg: CachelibConfig, line: Seq<char>) -> Option<Event> {
    let t = trimmed(line);
    let p = pieces(t, ',');
    if t.len() == 0 || t[0] == '#' || cfg.key_col >= p.len() {
        None
    } else {
        Some(Event {
            key: cachelib_key(trimmed(p[cfg.key_col as int])),
            op: match field(p, cfg.op_col) {
                Some(f) => if f.len() > 0 { cachelib_op(f) } else { Op::Get },
                None => Op::Get,
            },
            weight: match field(p, cfg.value_size_col) {
                Some(f) => parse_u32(f),
                None => None,
            },
            ts: match field(p, Some(cfg.timestamp_col)) {
                Some(f) => parse_u64(f),
                None => None,
            },
        })
    }
}

/// `cachelib_line` under `cfg`, as a value.
pub open spec fn cachelib_parser(cfg: CachelibConfig) -> spec_fn(Seq<char>) -> Option<Event> {
    |l: Seq<char>| cachelib_line(cfg, l)
}

/// Field `col` of `t` split on commas, trimmed, if there is one.
fn take_field(t: &Vec<char>, col: Option<usize>) -> (r: Option<Vec<char>>)
    ensures
        match r {
            Some(f) => field(pieces(t@, ','), col) == Some(f@),
            None => field(pieces(t@, ','), col) is None,
        },
{
    match col {
        Some(c) => match nth_piece(t, ',', c) {
            Some(p) => Some(trim(&p)),
            None => None,
        },
        None => None,
    }
}

fn parse_cachelib(cfg: &CachelibConfig, line: &Vec<char>) -> (r: Option<Event>)
    ensures
        r == cachelib_line(*cfg, line@),
{
    let t = trim(line);
    if t.len() == 0 || t[0] == '#' {
        return None;
    }
    let key_field = match nth_piece(&t, ',', cfg.key_col) {
        Some(p) => trim(&p),
        None => return None,
    };
    let key = match parse_bounded(&key_field, u64::MAX) {
        Some(k) => k,
        None => CachelibReader::hash_key(&key_field),
    };
    let op = match take_field(&t, cfg.op_col) {
        Some(f) => if f.len() > 0 { CachelibReader::parse_op(&f) } else { Op::Get },
        None => Op::Get,
    };
    let weight: Option<u32> = match take_field(&t, cfg.value_size_col) {
        Some(f) => match parse_bounded(&f, u32::MAX as u64) {
            Some(v) => Some(v as u32),
            None => None,
        },
        None => None,
    };
    let ts: Option<u64> = match take_field(&t, Some(cfg.timestamp_col)) {
        Some(f) => parse_bounded(&f, u64::MAX),
        None => None,
    };
    Some(Event { key, op, weight, ts })
}

/// Reads traces in the comma-separated Cachelib format.
pub struct CachelibReader {
    text: String,
    config: CachelibConfig,
    lines: LineCursor,
    first_line: bool,
}

/// The events of lines `s[i..]`; when `header` holds, the line at `i` is a
/// header and yields none.
pub open spec fn after_header(s: Seq<char>, i: int, header: bool, parse: spec_fn(Seq<char>) -> Option<Event>) -> Seq<Event> {
    if header && i < s.len() {
        events_from(s, next_line_start(s, i), parse)
    } else {
        events_from(s, i, parse)
    }
}

impl CachelibReader {
    pub closed spec fn wf(&self) -> bool {
        self.lines.wf() && self.lines.text() == self.text@
    }

    /// The trace text.
    pub closed spec fn text(&self) -> Seq<char> {
        self.text@
    }

    /// The configuration the reader was made with.
    pub closed spec fn config(&self) -> CachelibConfig {
        self.config
    }

    /// The events still to come.
    pub closed spec fn pending(&self) -> Seq<Event> {
        after_header(
            self.lines.text(),
            self.lines.pos(),
            self.first_line && self.config.has_header,
            cachelib_parser(self.config),
        )
    }

    /// A reader over the whole trace `text`, laid out as `config` says.
    pub fn new(text: &str, config: CachelibConfig) -> (r: CachelibReader)
        ensures
            r.wf(),
            r.text() == text@,
            r.config() == config,
            r.pending() == after_header(text@, 0, config.has_header, cachelib_parser(config)),
    {
        CachelibReader { text: text.to_owned(), config, lines: LineCursor::new(chars_of(text)), first_line: true }
    }

    /// A reader with the default configuration.
    pub fn with_defaults(text: &str) -> (r: CachelibReader)
        ensures
            r.wf(),
            r.text() == text@,
            r.config() == default_cachelib_parser_config(),
            r.pending() == after_header(text@, 0, default_cachelib_parser_config().has_header, cachelib_parser(default_cachelib_parser_config())),
    {
        CachelibReader::new(text, CachelibConfig::default())
    }

    /// The trace text being read.
    pub fn inner(&self) -> (r: &String)
        ensures
            r@ == self.text(),
    {
        &self.text
    }

    /// Consumes the reader and returns the trace text.
    pub fn into_inner(self) -> (r: String)
        ensures
            r@ == self.text(),
    {
        self.text
    }

    /// The next event of the trace, or `None` once all are read.
    pub fn read_event(&mut self) -> (r: Option<Event>)
        requires
            old(self).wf(),
        ensures
            final(self).wf(),
            final(self).text() == old(self).text(),
            final(self).config() == old(self).config(),
            stream_step(old(self).pending(), final(self).pending(), r),
    {
        let ghost s = self.lines.text();
        let ghost before = self.pending();
        let ghost parse = cachelib_parser(self.config);
        if self.first_line {
            self.first_line = false;
            if self.config.has_header {
                if self.lines.next_line().is_none() {
                    return None;
                }
            }
        }
        assert(self.pending() == before);
        loop
            invariant
                self.wf(),
                !self.first_line,
                self.text() == old(self).text(),
                self.config == old(self).config,
                parse == cachelib_parser(self.config),
                self.lines.text() == s,
                self.pending() == before,
                before == old(self).pending(),
            decreases s.len() - self.lines.pos(),
        {
            let ghost i = self.lines.pos();
            match self.lines.next_line() {
                None => {
                    return None;
                },
                Some(line) => {
                    proof {
                        events_step(s, i, parse);
                    }
                    if let Some(ev) = parse_cachelib(&self.config, &line) {
                        proof {
                            let rest = events_from(s, self.lines.pos(), parse);
                            assert((seq![ev] + rest).drop_first() =~= rest);
                        }
                        return Some(ev);
                    }
                },
            }
        }
    }
}

impl CachelibReader {
    /// Relies on std's `DefaultHasher::new` and `Hash for str`: the hash of a
    /// non-numeric key, which depends on its characters alone.
    #[verifier::external_body]
    fn hash_key(key: &Vec<char>) -> (r: u64)
        ensures
            r == default_hash_of(key@),
    {
        let s: String = key.iter().collect();
        let mut hasher = std::collections::hash_map::DefaultHasher::new();
        std::hash::Hash::hash(s.as_str(), &mut hasher);
        std::hash::Hasher::finish(&hasher)
    }

    /// The operation an operation field names.
    fn parse_op(t: &Vec<char>) -> (r: Op)
        ensures
            r == cachelib_op(t@),
    {
        if same_word(t, &vec!['s', 'e', 't']) || same_word(t, &vec!['a', 'd', 'd']) || same_word(t, &vec!['1']) {
            Op::Insert
        } else if same_word(t, &vec!['d', 'e', 'l', 'e', 't', 'e']) || same_word(t, &vec!['d', 'e', 'l'])
            || same_word(t, &vec!['2']) {
            Op::Delete
        } else {
            Op::Get
        }
    }
}

impl EventSource for CachelibReader {
    open spec fn ready(&self) -> bool {
        self.wf()
    }

    open spec fn stepped(&self, after: &Self, r: Option<Event>) -> bool {
        after.text() == self.text()
            && after.config() == self.config()
            && stream_step(self.pending(), after.pending(), r)
    }

    fn next_event(&mut self) -> (r: Option<Event>) {
        self.read_event()
    }
}

} // verus!
