//! Delimited trace format with configurable columns: a key, and optionally
//! an operation, a weight and a timestamp.  Blank lines, `#` comments and
//! lines without a parsable key are skipped; an optional header line is
//! skipped whatever it holds.
use vstd::prelude::*;
use crate::event::{Event, Op};
use crate::source::EventSource;
use crate::text::{
    chars_of, events_from, events_step, is_word, next_line_start, nth_piece, parse_bounded,
    parse_u32, parse_u64, pieces, same_word, stream_step, trim, trimmed, LineCursor,
};

verus! {

/// Configuration of the delimited format.
#[derive(Debug, Clone, Copy, PartialEq, Eq, Structural)]
pub struct CsvConfig {
    /// Column index of the key (0-based).
    pub key_col: usize,
    /// Column index of the operation, if present.
    pub op_col: Option<usize>,
    /// Column index of the weight, if present.
    pub weight_col: Option<usize>,
    /// Column index of the timestamp, if present.
    pub ts_col: Option<usize>,
    /// Column delimiter.
    pub delimiter: char,
    /// Whether the first line is a header to skip.
    pub has_header: bool,
}

/// The default layout: `key,op,weight,timestamp`, no header.
pub open spec fn default_csv_parser_config() -> CsvConfig {
    CsvConfig {
        key_col: 0,
        op_col: Some(1),
        weight_col: Some(2),
        ts_col: Some(3),
        delimiter: ',',
        has_header: false,
    }
}

impl Default for CsvConfig {
    fn default() -> (r: CsvConfig)
        ensures
            r == default_csv_parser_config(),
    {
        CsvConfig {
            key_col: 0,
            op_col: Some(1),
            weight_col: Some(2),
            ts_col: Some(3),
            delimiter: ',',
            has_header: false,
        }
    }
}

impl CsvConfig {
    /// A single key column.
    pub fn key_only() -> (r: CsvConfig)
        ensures
            r == (CsvConfig {
                key_col: 0,
                op_col: None,
                weight_col: None,
                ts_col: None,
                delimiter: ',',
                has_header: false,
            }),
    {
        CsvConfig { key_col: 0, op_col: None, weight_col: None, ts_col: None, delimiter: ',', has_header: false }
    }

    /// The default layout, separated by tabs.
    pub fn tsv() -> (r: CsvConfig)
        ensures
            r == (CsvConfig { delimiter: '\t', ..default_csv_parser_config() }),
    {
        CsvConfig { delimiter: '\t', ..CsvConfig::default() }
    }
}

/// The operation an operation field names: `insert`, `write`, `set`, `put`
/// or `w` insert; `delete`, `remove`, `del` or `d` delete (any ASCII case);
/// anything else is a lookup.
pub open spec fn csv_op(t: Seq<char>) -> Op {
    if is_word(t, seq!['i', 'n', 's', 'e', 'r', 't']) || is_word(t, seq!['w', 'r', 'i', 't', 'e'])
        || is_word(t, seq!['s', 'e', 't']) || is_word(t, seq!['p', 'u', 't']) || is_word(t, seq!['w']) {
        Op::Insert
    } else if is_word(t, seq!['d', 'e', 'l', 'e', 't', 'e']) || is_word(t, seq!['r', 'e', 'm', 'o', 'v', 'e'])
        || is_word(t, seq!['d', 'e', 'l']) || is_word(t, seq!['d']) {
        Op::Delete
    } else {
        Op::Get
    }
}

/// Field `col` of the fields `p`, trimmed, if there is one.
pub open spec fn field(p: Seq<Seq<char>>, col: Option<usize>) -> Option<Seq<char>> {
    match col {
        Some(c) => if c < p.len() { Some(trimmed(p[c as int])) } else { None },
        None => None,
    }
}

/// The event a delimited line stands for under `cfg`.
pub open spec fn csv_line(cfg: CsvConfig, line: Seq<char>) -> Option<Event> {
    let t = trimmed(line);
    let p = pieces(t, cfg.delimiter);
    if t.len() == 0 || t[0] == '#' || cfg.key_col >= p.len() {
        None
    } else {
        match parse_u64(trimmed(p[cfg.key_col as int])) {
            None => None,
            Some(key) => Some(Event {
                key,
                op: match field(p, cfg.op_col) {
                    Some(f) => if f.len() > 0 { csv_op(f) } else { Op::Get },
                    None => Op::Get,
                },
                weight: match field(p, cfg.weight_col) {
                    Some(f) => parse_u32(f),
                    None => None,
                },
                ts: match field(p, cfg.ts_col) {
                    Some(f) => parse_u64(f),
                    None => None,
                },
            }),
        }
    }
}

/// `csv_line` under `cfg`, as a value.
pub open spec fn csv_parser(cfg: CsvConfig) -> spec_fn(Seq<char>) -> Option<Event> {
    |l: Seq<char>| csv_line(cfg, l)
}

/// Field `col` of `t` split on `d`, trimmed, if there is one.
fn take_field(t: &Vec<char>, d: char, col: Option<usize>) -> (r: Option<Vec<char>>)
    ensures
        match r {
            Some(f) => field(pieces(t@, d), col) == Some(f@),
            None => field(pieces(t@, d), col) is None,
        },
{
    match col {
        Some(c) => match nth_piece(t, d, c) {
            Some(p) => Some(trim(&p)),
            None => None,
        },
        None => None,
    }
}

fn parse_csv(cfg: &CsvConfig, line: &Vec<char>) -> (r: Option<Event>)
    ensures
        r == csv_line(*cfg, line@),
{
    let t = trim(line);
    if t.len() == 0 || t[0] == '#' {
        return None;
    }
    let key_field = match nth_piece(&t, cfg.delimiter, cfg.key_col) {
        Some(p) => trim(&p),
        None => return None,
    };
    let key = match parse_bounded(&key_field, u64::MAX) {
        Some(k) => k,
        None => return None,
    };
    let op = match take_field(&t, cfg.delimiter, cfg.op_col) {
        Some(f) => if f.len() > 0 { CsvReader::parse_op(&f) } else { Op::Get },
        None => Op::Get,
    };
    let weight: Option<u32> = match take_field(&t, cfg.delimiter, cfg.weight_col) {
        Some(f) => match parse_bounded(&f, u32::MAX as u64) {
            Some(v) => Some(v as u32),
            None => None,
        },
        None => None,
    };
    let ts: Option<u64> = match take_field(&t, cfg.delimiter, cfg.ts_col) {
        Some(f) => parse_bounded(&f, u64::MAX),
        None => None,
    };
    Some(Event { key, op, weight, ts })
}

/// Reads traces in a delimited format with configurable columns.
pub struct CsvReader {
    text: String,
    config: CsvConfig,
    lines: LineCursor,
    first_line: bool,
}

/// The events of lines `s[i..]`; when `header` holds, the line at `i` is a
/// header and yields none.
pub open spec fn after_header(s: Seq<char>, i: int, header: bool, parse: spec_fn(Seq<char>) -> Option<Event>) -> Seq<Event> {
    if header && i < s.len() {
        events_from(s, next_line_start(s, i), parse)
    } else {
        events_from(s, i, parse)
    }
}

impl CsvReader {
    pub closed spec fn wf(&self) -> bool {
        self.lines.wf() && self.lines.text() == self.text@
    }

    /// The trace text.
    pub closed spec fn text(&self) -> Seq<char> {
        self.text@
    }

    /// The configuration the reader was made with.
    pub closed spec fn config(&self) -> CsvConfig {
        self.config
    }

    /// The events still to come.
    pub closed spec fn pending(&self) -> Seq<Event> {
        after_header(
            self.lines.text(),
            self.lines.pos(),
            self.first_line && self.config.has_header,
            csv_parser(self.config),
        )
    }

    /// A reader over the whole trace `text`, laid out as `config` says.
    pub fn new(text: &str, config: CsvConfig) -> (r: CsvReader)
        ensures
            r.wf(),
            r.text() == text@,
            r.config() == config,
            r.pending() == after_header(text@, 0, config.has_header, csv_parser(config)),
    {
        CsvReader { text: text.to_owned(), config, lines: LineCursor::new(chars_of(text)), first_line: true }
    }

    /// A reader with the default configuration.
    pub fn with_defaults(text: &str) -> (r: CsvReader)
        ensures
            r.wf(),
            r.text() == text@,
            r.config() == default_csv_parser_config(),
            r.pending() == after_header(text@, 0, default_csv_parser_config().has_header, csv_parser(default_csv_parser_config())),
    {
        CsvReader::new(text, CsvConfig::default())
    }

    /// The trace text being read.
    pub fn inner(&self) -> (r: &String)
        ensures
            r@ == self.text(),
    {
        &self.text
    }

    /// Consumes the reader and returns the trace text.
    pub fn into_inner(self) -> (r: String)
        ensures
            r@ == self.text(),
    {
        self.text
    }

    /// The next event of the trace, or `None` once all are read.
    pub fn read_event(&mut self) -> (r: Option<Event>)
        requires
            old(self).wf(),
        ensures
            final(self).wf(),
            final(self).text() == old(self).text(),
            final(self).config() == old(self).config(),
            stream_step(old(self).pending(), final(self).pending(), r),
    {
        let ghost s = self.lines.text();
        let ghost before = self.pending();
        let ghost parse = csv_parser(self.config);
        if self.first_line {
            self.first_line = false;
            if self.config.has_header {
                if self.lines.next_line().is_none() {
                    return None;
                }
            }
        }
        assert(self.pending() == before);
        loop
            invariant
                self.wf(),
                !self.first_line,
                self.text() == old(self).text(),
                self.config == old(self).config,
                parse == csv_parser(self.config),
                self.lines.text() == s,
                self.pending() == before,
                before == old(self).pending(),
            decreases s.len() - self.lines.pos(),
        {
            let ghost i = self.lines.pos();
            match self.lines.next_line() {
                None => {
                    return None;
                },
                Some(line) => {
                    proof {
                        events_step(s, i, parse);
                    }
                    if let Some(ev) = parse_csv(&self.config, &line) {
                        proof {
                            let rest = events_from(s, self.lines.pos(), parse);
                            assert((seq![ev] + rest).drop_first() =~= rest);
                        }
                        return Some(ev);
                    }
                },
            }
        }
    }
}

impl CsvReader {
    /// The operation an operation field names.
    fn parse_op(t: &Vec<char>) -> (r: Op)
        ensures
            r == csv_op(t@),
    {
        if same_word(t, &vec!['i', 'n', 's', 'e', 'r', 't']) || same_word(t, &vec!['w', 'r', 'i', 't', 'e'])
            || same_word(t, &vec!['s', 'e', 't']) || same_word(t, &vec!['p', 'u', 't']) || same_word(t, &vec!['w']) {
            Op::Insert
        } else if same_word(t, &vec!['d', 'e', 'l', 'e', 't', 'e']) || same_word(t, &vec!['r', 'e', 'm', 'o', 'v', 'e'])
            || same_word(t, &vec!['d', 'e', 'l']) || same_word(t, &vec!['d']) {
            Op::Delete
        } else {
            Op::Get
        }
    }
}

impl EventSource for CsvReader {
    open spec fn ready(&self) -> bool {
        self.wf()
    }

    open spec fn stepped(&self, after: &Self, r: Option<Event>) -> bool {
        after.text() == self.text()
            && after.config() == self.config()
            && stream_step(self.pending(), after.pending(), r)
    }

    fn next_event(&mut self) -> (r: Option<Event>) {
        self.read_event()
    }
}

} // verus!
