//! Text primitives shared by the trace readers: line splitting, whitespace
//! trimming, field splitting and decimal parsing, over sequences of chars.
use vstd::prelude::*;
use crate::event::Event;

verus! {

/// Relies on `str::chars` (collected into a vector): the string's characters, in order.
#[verifier::external_body]
pub fn chars_of(s: &str) -> (r: Vec<char>)
    ensures
        r@ == s@,
{
    s.chars().collect()
}

/// Unicode White_Space, the set that `char::is_whitespace` tests.
pub open spec fn is_ws(c: char) -> bool {
    let v = c as u32;
    (0x09 <= v && v <= 0x0d) || v == 0x20 || v == 0x85 || v == 0xa0 || v == 0x1680
        || (0x2000 <= v && v <= 0x200a) || v == 0x2028 || v == 0x2029 || v == 0x202f
        || v == 0x205f || v == 0x3000
}

/// Whether `c` is whitespace.
pub fn is_space(c: char) -> (r: bool)
    ensures
        r == is_ws(c),
{
    let v = c as u32;
    (0x09 <= v && v <= 0x0d) || v == 0x20 || v == 0x85 || v == 0xa0 || v == 0x1680
        || (0x2000 <= v && v <= 0x200a) || v == 0x2028 || v == 0x2029 || v == 0x202f
        || v == 0x205f || v == 0x3000
}

/// First index at or after `i` that holds no whitespace (or the length).
pub open spec fn skip_ws(s: Seq<char>, i: int) -> int
    decreases s.len() - i,
{
    if 0 <= i < s.len() && is_ws(s[i]) {
        skip_ws(s, i + 1)
    } else {
        i
    }
}

/// End of `s[lo..j]` once trailing whitespace is dropped.
pub open spec fn back_ws(s: Seq<char>, lo: int, j: int) -> int
    decreases j - lo,
{
    if lo < j && j <= s.len() && is_ws(s[j - 1]) {
        back_ws(s, lo, j - 1)
    } else {
        j
    }
}

/// `s` without leading and trailing whitespace, as `str::trim` gives it.
pub open spec fn trimmed(s: Seq<char>) -> Seq<char> {
    let a = skip_ws(s, 0);
    s.subrange(a, back_ws(s, a, s.len() as int))
}

proof fn skip_ws_bounds(s: Seq<char>, i: int)
    requires
        0 <= i <= s.len(),
    ensures
        i <= skip_ws(s, i) <= s.len(),
    decreases s.len() - i,
{
    if i < s.len() && is_ws(s[i]) {
        skip_ws_bounds(s, i + 1);
    }
}

proof fn back_ws_bounds(s: Seq<char>, lo: int, j: int)
    requires
        0 <= lo <= j <= s.len(),
    ensures
        lo <= back_ws(s, lo, j) <= j,
    decreases j - lo,
{
    if lo < j && is_ws(s[j - 1]) {
        back_ws_bounds(s, lo, j - 1);
    }
}

/// `s` trimmed of surrounding whitespace.
pub fn trim(s: &Vec<char>) -> (r: Vec<char>)
    ensures
        r@ == trimmed(s@),
{
    let n = s.len();
    let mut a: usize = 0;
    while a < n && is_space(s[a])
        invariant
            a <= n,
            n == s@.len(),
            skip_ws(s@, a as int) == skip_ws(s@, 0),
        decreases n - a,
    {
        a = a + 1;
    }
    let mut b: usize = n;
    proof {
        skip_ws_bounds(s@, 0);
    }
    while b > a && is_space(s[b - 1])
        invariant
            a <= b <= n,
            n == s@.len(),
            a == skip_ws(s@, 0),
            back_ws(s@, a as int, b as int) == back_ws(s@, a as int, n as int),
        decreases b - a,
    {
        b = b - 1;
    }
    slice_of(s, a, b)
}

/// The characters `s[a..b]`.
pub fn slice_of(s: &Vec<char>, a: usize, b: usize) -> (r: Vec<char>)
    requires
        a <= b <= s@.len(),
    ensures
        r@ == s@.subrange(a as int, b as int),
{
    let mut r: Vec<char> = Vec::new();
    let mut i = a;
    while i < b
        invariant
            a <= i <= b <= s@.len(),
            r@ == s@.subrange(a as int, i as int),
        decreases b - i,
    {
        r.push(s[i]);
        i = i + 1;
        assert(r@ =~= s@.subrange(a as int, i as int));
    }
    r
}

/// Index of the first `'\n'` at or after `i`, or the length.
pub open spec fn line_end(s: Seq<char>, i: int) -> int
    decreases s.len() - i,
{
    if i < 0 || i >= s.len() {
        s.len() as int
    } else if s[i] == '\n' {
        i
    } else {
        line_end(s, i + 1)
    }
}

pub proof fn line_end_bounds(s: Seq<char>, i: int)
    requires
        0 <= i <= s.len(),
    ensures
        i <= line_end(s, i) <= s.len(),
    decreases s.len() - i,
{
    if i < s.len() && s[i] != '\n' {
        line_end_bounds(s, i + 1);
    }
}

/// End of the line starting at `i`.
pub fn find_line_end(s: &Vec<char>, i: usize) -> (r: usize)
    requires
        i <= s@.len(),
    ensures
        r == line_end(s@, i as int),
        i <= r <= s@.len(),
{
    let mut j = i;
    proof {
        line_end_bounds(s@, i as int);
    }
    while j < s.len() && s[j] != '\n'
        invariant
            i <= j <= s@.len(),
            line_end(s@, j as int) == line_end(s@, i as int),
        decreases s@.len() - j,
    {
        j = j + 1;
    }
    j
}

/// Whether `c` is an ASCII decimal digit.
pub open spec fn is_digit(c: char) -> bool {
    '0' <= c && c <= '9'
}

/// Value of the decimal digits `s`.
pub open spec fn decimal(s: Seq<char>) -> int
    decreases s.len(),
{
    if s.len() == 0 {
        0
    } else {
        decimal(s.drop_last()) * 10 + (s.last() as u32 - '0' as u32)
    }
}

/// The digits after an optional leading `'+'`.
pub open spec fn unsigned_digits(s: Seq<char>) -> Seq<char> {
    if s.len() > 0 && s[0] == '+' { s.drop_first() } else { s }
}

/// The number `s` spells for `str::parse` into an unsigned type whose largest
/// value is `max`: an optional `'+'`, one or more decimal digits, and a
/// value of at most `max`.
pub open spec fn parse_unsigned(s: Seq<char>, max: int) -> Option<int> {
    let d = unsigned_digits(s);
    if d.len() > 0 && (forall|i: int| 0 <= i < d.len() ==> is_digit(d[i])) && decimal(d) <= max {
        Some(decimal(d))
    } else {
        None
    }
}

/// `s` parsed as a `u64`.
pub open spec fn parse_u64(s: Seq<char>) -> Option<u64> {
    match parse_unsigned(s, u64::MAX as int) {
        Some(v) => Some(v as u64),
        None => None,
    }
}

/// `s` parsed as a `u32`.
pub open spec fn parse_u32(s: Seq<char>) -> Option<u32> {
    match parse_unsigned(s, u32::MAX as int) {
        Some(v) => Some(v as u32),
        None => None,
    }
}

proof fn decimal_grows(d: Seq<char>, k: int)
    requires
        0 <= k <= d.len(),
        forall|i: int| 0 <= i < d.len() ==> is_digit(d[i]),
    ensures
        decimal(d.subrange(0, k)) <= decimal(d),
        0 <= decimal(d.subrange(0, k)),
    decreases d.len() - k,
{
    if k < d.len() {
        decimal_grows(d, k + 1);
        let p = d.subrange(0, k + 1);
        assert(p.drop_last() =~= d.subrange(0, k));
        decimal_nonneg(d.subrange(0, k));
    } else {
        assert(d.subrange(0, k) =~= d);
        decimal_nonneg(d);
    }
}

proof fn decimal_nonneg(d: Seq<char>)
    requires
        forall|i: int| 0 <= i < d.len() ==> is_digit(d[i]),
    ensures
        0 <= decimal(d),
    decreases d.len(),
{
    if d.len() > 0 {
        decimal_nonneg(d.drop_last());
    }
}

/// `s` parsed as an unsigned number of at most `max`.
pub fn parse_bounded(s: &Vec<char>, max: u64) -> (r: Option<u64>)
    ensures
        r matches Some(v) ==> parse_unsigned(s@, max as int) == Some(v as int),
        r is None ==> parse_unsigned(s@, max as int) is None,
{
    let n = s.len();
    let start: usize = if n > 0 && s[0] == '+' { 1 } else { 0 };
    let ghost d = unsigned_digits(s@);
    assert(d =~= s@.subrange(start as int, n as int));
    if start == n {
        return None;
    }
    let mut v: u64 = 0;
    let mut i = start;
    while i < n
        invariant
            start <= i <= n,
            n == s@.len(),
            d == s@.subrange(start as int, n as int),
            d == unsigned_digits(s@),
            forall|j: int| start <= j < i ==> is_digit(s@[j]),
            v as int == decimal(d.subrange(0, i - start)),
            v <= max,
        decreases n - i,
    {
        let c = s[i];
        assert(d[i - start] == c);
        if !('0' <= c && c <= '9') {
            assert(!is_digit(d[i - start]));
            assert(!(forall|j: int| 0 <= j < d.len() ==> is_digit(d[j])));
            return None;
        }
        let digit = (c as u32 - '0' as u32) as u64;
        proof {
            let p = d.subrange(0, i - start + 1);
            assert(p.drop_last() =~= d.subrange(0, i - start));
            assert(p.last() == c);
            assert(decimal(p) == v * 10 + digit);
        }
        if digit > max || v > (max - digit) / 10 {
            proof {
                assert(v * 10 + digit > max) by (nonlinear_arith)
                    requires
                        digit > max || v > (max - digit) / 10,
                        0 <= digit <= 9,
                        0 <= v,
                ;
                if forall|j: int| 0 <= j < d.len() ==> is_digit(d[j]) {
                    decimal_grows(d, i - start + 1);
                }
            }
            return None;
        }
        v = v * 10 + digit;
        i = i + 1;
    }
    assert(d.subrange(0, n - start) =~= d);
    Some(v)
}

/// Index of the first `c` at or after `i`, or the length.
pub open spec fn find_from(s: Seq<char>, i: int, c: char) -> int
    decreases s.len() - i,
{
    if i < 0 || i >= s.len() {
        s.len() as int
    } else if s[i] == c {
        i
    } else {
        find_from(s, i + 1, c)
    }
}

proof fn find_from_bounds(s: Seq<char>, i: int, c: char)
    requires
        0 <= i <= s.len(),
    ensures
        i <= find_from(s, i, c) <= s.len(),
        find_from(s, i, c) < s.len() ==> s[find_from(s, i, c)] == c,
    decreases s.len() - i,
{
    if i < s.len() && s[i] != c {
        find_from_bounds(s, i + 1, c);
    }
}

/// Index of the first `c` at or after `i`, or the length.
pub fn find_char(s: &Vec<char>, i: usize, c: char) -> (r: usize)
    requires
        i <= s@.len(),
    ensures
        r == find_from(s@, i as int, c),
        i <= r <= s@.len(),
{
    proof {
        find_from_bounds(s@, i as int, c);
    }
    let mut j = i;
    while j < s.len() && s[j] != c
        invariant
            i <= j <= s@.len(),
            find_from(s@, j as int, c) == find_from(s@, i as int, c),
        decreases s@.len() - j,
    {
        j = j + 1;
    }
    j
}

/// The pieces of `s[i..]` between occurrences of `d`, as `str::split` gives
/// them: one more piece than there are separators, empty ones included.
pub open spec fn pieces_from(s: Seq<char>, d: char, i: int) -> Seq<Seq<char>>
    decreases s.len() - i,
{
    let e = find_from(s, i, d);
    if i < 0 || i > s.len() || e >= s.len() || e < i {
        seq![s.subrange(i, s.len() as int)]
    } else {
        seq![s.subrange(i, e)] + pieces_from(s, d, e + 1)
    }
}

/// The pieces of `s` separated by `d`.
pub open spec fn pieces(s: Seq<char>, d: char) -> Seq<Seq<char>> {
    pieces_from(s, d, 0)
}

proof fn pieces_from_nonempty(s: Seq<char>, d: char, i: int)
    requires
        0 <= i <= s.len(),
    ensures
        pieces_from(s, d, i).len() >= 1,
        pieces_from(s, d, i)[0] == s.subrange(i, find_from(s, i, d)),
{
    find_from_bounds(s, i, d);
}

/// Piece `k` of `s` split on `d`, if there are more than `k` pieces.
pub fn nth_piece(s: &Vec<char>, d: char, k: usize) -> (r: Option<Vec<char>>)
    ensures
        match r {
            Some(p) => k < pieces(s@, d).len() && p@ == pieces(s@, d)[k as int],
            None => k >= pieces(s@, d).len(),
        },
{
    let n = s.len();
    let mut i: usize = 0;
    let mut j: usize = 0;
    assert(pieces(s@, d).skip(0) =~= pieces_from(s@, d, 0));
    while j < k
        invariant
            i <= n,
            n == s@.len(),
            j <= k,
            pieces(s@, d).len() == j + pieces_from(s@, d, i as int).len(),
            pieces(s@, d).skip(j as int) == pieces_from(s@, d, i as int),
        decreases k - j,
    {
        let e = find_char(s, i, d);
        proof {
            find_from_bounds(s@, i as int, d);
        }
        if e >= n {
            assert(pieces_from(s@, d, i as int).len() == 1);
            return None;
        }
        proof {
            let pf = pieces_from(s@, d, i as int);
            assert(pf == seq![s@.subrange(i as int, e as int)] + pieces_from(s@, d, e + 1));
            assert(pieces(s@, d).skip(j + 1) =~= pf.skip(1));
            assert(pf.skip(1) =~= pieces_from(s@, d, e + 1));
        }
        i = e + 1;
        j = j + 1;
    }
    let e = find_char(s, i, d);
    proof {
        pieces_from_nonempty(s@, d, i as int);
        assert(pieces(s@, d)[k as int] == pieces(s@, d).skip(k as int)[0]);
    }
    Some(slice_of(s, i, e))
}

/// First whitespace index at or after `i` (or the length).
pub open spec fn word_end(s: Seq<char>, i: int) -> int
    decreases s.len() - i,
{
    if 0 <= i < s.len() && !is_ws(s[i]) {
        word_end(s, i + 1)
    } else {
        i
    }
}

proof fn word_end_bounds(s: Seq<char>, i: int)
    requires
        0 <= i <= s.len(),
    ensures
        i <= word_end(s, i) <= s.len(),
    decreases s.len() - i,
{
    if i < s.len() && !is_ws(s[i]) {
        word_end_bounds(s, i + 1);
    }
}

/// The whitespace-separated words of `s[i..]`, as `str::split_whitespace`
/// gives them.
pub open spec fn words_from(s: Seq<char>, i: int) -> Seq<Seq<char>>
    decreases s.len() - i,
{
    let a = skip_ws(s, i);
    if i < 0 || a >= s.len() {
        Seq::empty()
    } else {
        let b = word_end(s, a);
        if b <= i || b > s.len() {
            Seq::empty()
        } else {
            seq![s.subrange(a, b)] + words_from(s, b)
        }
    }
}

/// The whitespace-separated words of `s`.
pub open spec fn words(s: Seq<char>) -> Seq<Seq<char>> {
    words_from(s, 0)
}

/// Word `k` of `s`, if it has more than `k` words.
pub fn nth_word(s: &Vec<char>, k: usize) -> (r: Option<Vec<char>>)
    ensures
        match r {
            Some(p) => k < words(s@).len() && p@ == words(s@)[k as int],
            None => k >= words(s@).len(),
        },
{
    let n = s.len();
    let mut i: usize = 0;
    let mut j: usize = 0;
    assert(words(s@).skip(0) =~= words_from(s@, 0));
    loop
        invariant
            i <= n,
            n == s@.len(),
            j <= k,
            words(s@).len() == j + words_from(s@, i as int).len(),
            words(s@).skip(j as int) == words_from(s@, i as int),
        decreases n - i,
    {
        let mut a = i;
        proof {
            skip_ws_bounds(s@, i as int);
        }
        while a < n && is_space(s[a])
            invariant
                i <= a <= n,
                n == s@.len(),
                skip_ws(s@, a as int) == skip_ws(s@, i as int),
            decreases n - a,
        {
            a = a + 1;
        }
        if a >= n {
            assert(words_from(s@, i as int).len() == 0);
            return None;
        }
        let mut b = a;
        proof {
            word_end_bounds(s@, a as int);
        }
        while b < n && !is_space(s[b])
            invariant
                a <= b <= n,
                n == s@.len(),
                word_end(s@, b as int) == word_end(s@, a as int),
            decreases n - b,
        {
            b = b + 1;
        }
        let ghost wf = words_from(s@, i as int);
        assert(b > a);
        assert(wf == seq![s@.subrange(a as int, b as int)] + words_from(s@, b as int));
        if j == k {
            assert(words(s@)[k as int] == words(s@).skip(k as int)[0]);
            return Some(slice_of(s, a, b));
        }
        assert(words(s@).skip(j + 1) =~= wf.skip(1));
        assert(wf.skip(1) =~= words_from(s@, b as int));
        i = b;
        j = j + 1;
    }
}

/// The events that the lines of `s` from index `i` on yield under `parse`;
/// a line is the text up to the next `'\n'`, without it.
pub open spec fn events_from(s: Seq<char>, i: int, parse: spec_fn(Seq<char>) -> Option<Event>) -> Seq<Event>
    decreases s.len() - i,
{
    if i < 0 || i >= s.len() {
        Seq::empty()
    } else {
        let e = line_end(s, i);
        let rest = if e < i || e >= s.len() { Seq::empty() } else { events_from(s, e + 1, parse) };
        match parse(s.subrange(i, e)) {
            Some(ev) => seq![ev] + rest,
            None => rest,
        }
    }
}

/// The lines of a text, read one at a time.
pub struct LineCursor {
    chars: Vec<char>,
    pos: usize,
}

impl LineCursor {
    /// The whole text.
    pub closed spec fn text(&self) -> Seq<char> {
        self.chars@
    }

    /// Where the next line starts.
    pub closed spec fn pos(&self) -> int {
        self.pos as int
    }

    /// The cursor lies within the text.
    pub open spec fn wf(&self) -> bool {
        0 <= self.pos() <= self.text().len()
    }

    /// A cursor at the start of `chars`.
    pub fn new(chars: Vec<char>) -> (r: LineCursor)
        ensures
            r.wf(),
            r.text() == chars@,
            r.pos() == 0,
    {
        LineCursor { chars, pos: 0 }
    }

    /// The next line, without its `'\n'`, or `None` at the end of the text.
    pub fn next_line(&mut self) -> (r: Option<Vec<char>>)
        requires
            old(self).wf(),
        ensures
            final(self).wf(),
            final(self).text() == old(self).text(),
            match r {
                None => old(self).pos() >= old(self).text().len() && final(self).pos() == old(self).pos(),
                Some(line) => {
                    let e = line_end(old(self).text(), old(self).pos());
                    &&& old(self).pos() < old(self).text().len()
                    &&& old(self).pos() <= e
                    &&& line@ == old(self).text().subrange(old(self).pos(), e)
                    &&& final(self).pos() == (if e < old(self).text().len() { e + 1 } else { e })
                },
            },
    {
        if self.pos >= self.chars.len() {
            return None;
        }
        let e = find_line_end(&self.chars, self.pos);
        let line = slice_of(&self.chars, self.pos, e);
        self.pos = if e < self.chars.len() { e + 1 } else { e };
        Some(line)
    }
}

/// Where the line after the one starting at `i` starts.
pub open spec fn next_line_start(s: Seq<char>, i: int) -> int {
    let e = line_end(s, i);
    if e < s.len() { e + 1 } else { e }
}

/// One line of `events_from`: the line at `i` yields its event, if any,
/// ahead of those of the lines after it.
pub proof fn events_step(s: Seq<char>, i: int, parse: spec_fn(Seq<char>) -> Option<Event>)
    requires
        0 <= i < s.len(),
    ensures
        events_from(s, i, parse) == (match parse(s.subrange(i, line_end(s, i))) {
            Some(ev) => seq![ev] + events_from(s, next_line_start(s, i), parse),
            None => events_from(s, next_line_start(s, i), parse),
        }),
{
    line_end_bounds(s, i);
}

/// One step of a stream of events: the first of `before` comes out and
/// `after` is the rest, or, with none left, `None` comes out.
pub open spec fn stream_step(before: Seq<Event>, after: Seq<Event>, r: Option<Event>) -> bool {
    if before.len() == 0 {
        r is None && after.len() == 0
    } else {
        r == Some(before[0]) && after == before.drop_first()
    }
}

/// Code point of `c` with ASCII capitals made lower case.
pub open spec fn lower_code(c: char) -> u32 {
    if 'A' <= c && c <= 'Z' { ((c as u32) + 32) as u32 } else { c as u32 }
}

/// Whether `a`, lower-cased, is the lower-case ASCII word `w`.  For ASCII
/// words without `k`, this is what comparing `str::to_lowercase` with `w`
/// decides.
pub open spec fn is_word(a: Seq<char>, w: Seq<char>) -> bool {
    a.len() == w.len() && forall|i: int| 0 <= i < a.len() ==> lower_code(a[i]) == w[i] as u32
}

/// Whether `a` is the word `w`, ignoring ASCII case in `a`.
pub fn same_word(a: &Vec<char>, w: &Vec<char>) -> (r: bool)
    ensures
        r == is_word(a@, w@),
{
    if a.len() != w.len() {
        return false;
    }
    let mut i: usize = 0;
    while i < a.len()
        invariant
            a@.len() == w@.len(),
            i <= a@.len(),
            forall|j: int| 0 <= j < i ==> lower_code(a@[j]) == w@[j] as u32,
        decreases a@.len() - i,
    {
        let c = a[i];
        let lc: u32 = if 'A' <= c && c <= 'Z' { (c as u32) + 32 } else { c as u32 };
        if lc != w[i] as u32 {
            return false;
        }
        i = i + 1;
    }
    true
}

} // verus!
