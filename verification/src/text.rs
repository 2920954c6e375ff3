//! Character-level string functions.
use vstd::prelude::*;
use vstd::string::*;
use vstd::utf8::*;

verus! {

/// Appends one character to a string (`String::push`): the string's
/// characters afterwards are the old ones followed by `c`.
#[verifier::external_body]
pub(crate) fn push_char(s: &mut String, c: char)
    ensures
        final(s)@ == old(s)@.push(c),
{
    s.push(c);
}

/// The characters of `s`, in order.
pub fn chars_of(s: &str) -> (out: Vec<char>)
    ensures
        out@ == s@,
{
    let mut out: Vec<char> = Vec::new();
    for c in it: s.chars()
        invariant
            out@ == it.seq().take(it.index() as int),
    {
        out.push(c);
    }
    out
}

/// Whether `a` and `b` hold the same characters.
pub fn str_eq(a: &str, b: &str) -> (r: bool)
    ensures
        r == (a@ == b@),
{
    let x = chars_of(a);
    let y = chars_of(b);
    if x.len() != y.len() {
        return false;
    }
    let mut i: usize = 0;
    while i < x.len()
        invariant
            0 <= i <= x.len(),
            x.len() == y.len(),
            x@ == a@,
            y@ == b@,
            forall|j: int| 0 <= j < i ==> x@[j] == y@[j],
        decreases x.len() - i,
    {
        if x[i] != y[i] {
            return false;
        }
        i = i + 1;
    }
    assert(x@ =~= y@);
    true
}


/// A string holding the characters `v[lo..hi]`.
pub fn string_from_chars(v: &Vec<char>, lo: usize, hi: usize) -> (r: String)
    requires
        lo <= hi <= v.len(),
    ensures
        r@ == v@.subrange(lo as int, hi as int),
{
    let mut r = String::new();
    let mut i = lo;
    while i < hi
        invariant
            lo <= i <= hi <= v.len(),
            r@ == v@.subrange(lo as int, i as int),
        decreases hi - i,
    {
        push_char(&mut r, v[i]);
        assert(v@.subrange(lo as int, i + 1) =~= v@.subrange(lo as int, i as int).push(v@[i as int]));
        i = i + 1;
    }
    r
}

// ---------------------------------------------------------------------------
// Decimal numerals
// ---------------------------------------------------------------------------

/// The character of the decimal digit `d`.
pub open spec fn digit_char(d: nat) -> char {
    (d + 48) as char
}

/// The decimal numeral of `n`, without leading zeros.
pub open spec fn decimal(n: nat) -> Seq<char>
    decreases n,
{
    if n < 10 {
        seq![digit_char(n)]
    } else {
        decimal(n / 10).push(digit_char(n % 10))
    }
}

fn digit(d: u64) -> (c: char)
    requires
        d < 10,
    ensures
        c == digit_char(d as nat),
{
    let b: u8 = d as u8 + 48;
    b as char
}

/// Appends the decimal numeral of `n` to `s`.
pub fn push_decimal(s: &mut String, n: u64)
    ensures
        final(s)@ == old(s)@ + decimal(n as nat),
    decreases n,
{
    if n >= 10 {
        push_decimal(s, n / 10);
        push_char(s, digit(n % 10));
        assert(final(s)@ =~= old(s)@ + decimal(n as nat));
    } else {
        push_char(s, digit(n));
        assert(final(s)@ =~= old(s)@ + decimal(n as nat));
    }
}

/// The decimal numeral of `n`.
pub fn decimal_string(n: u64) -> (r: String)
    ensures
        r@ == decimal(n as nat),
{
    let mut r = String::new();
    push_decimal(&mut r, n);
    assert(r@ =~= decimal(n as nat));
    r
}

// ---------------------------------------------------------------------------
// Substrings and prefixes
// ---------------------------------------------------------------------------

/// Whether `p` occurs in `s` as a contiguous run of characters.
pub open spec fn occurs_in(p: Seq<char>, s: Seq<char>) -> bool {
    exists|i: int| 0 <= i && i + p.len() <= s.len() && #[trigger] s.subrange(i, i + p.len()) == p
}

fn matches_at(h: &Vec<char>, n: &Vec<char>, i: usize) -> (r: bool)
    requires
        i + n.len() <= h.len(),
    ensures
        r == (h@.subrange(i as int, i + n.len()) == n@),
{
    let mut j: usize = 0;
    while j < n.len()
        invariant
            0 <= j <= n.len(),
            i + n.len() <= h.len(),
            forall|k: int| 0 <= k < j ==> h@[i + k] == n@[k],
        decreases n.len() - j,
    {
        if h[i + j] != n[j] {
            assert(h@.subrange(i as int, i + n.len())[j as int] != n@[j as int]);
            return false;
        }
        j = j + 1;
    }
    assert(h@.subrange(i as int, i + n.len()) =~= n@);
    true
}

/// Whether `needle` occurs in `hay` (`str::contains`).
pub fn contains(hay: &str, needle: &str) -> (r: bool)
    ensures
        r == occurs_in(needle@, hay@),
{
    let h = chars_of(hay);
    let n = chars_of(needle);
    if n.len() > h.len() {
        return false;
    }
    let last = h.len() - n.len();
    let mut i: usize = 0;
    while i <= last
        invariant
            0 <= i <= last + 1,
            last + n.len() == h.len(),
            h@ == hay@,
            n@ == needle@,
            forall|k: int| 0 <= k < i ==> #[trigger] h@.subrange(k, k + n.len()) != n@,
        decreases last + 1 - i,
    {
        if matches_at(&h, &n, i) {
            return true;
        }
        if i == last {
            return false;
        }
        i = i + 1;
    }
    false
}

/// `s` without the leading `p`, when `s` starts with `p`.
pub open spec fn strip_prefix(s: Seq<char>, p: Seq<char>) -> Option<Seq<char>> {
    if p.len() <= s.len() && s.take(p.len() as int) == p {
        Some(s.skip(p.len() as int))
    } else {
        None
    }
}

/// `s` without the leading `p`, when `s` starts with `p` (`str::strip_prefix`).
pub fn strip_prefix_of(s: &str, p: &str) -> (r: Option<String>)
    ensures
        match r {
            Some(t) => strip_prefix(s@, p@) == Some(t@),
            None => strip_prefix(s@, p@) is None,
        },
{
    let v = chars_of(s);
    let w = chars_of(p);
    if w.len() > v.len() {
        return None;
    }
    if matches_at(&v, &w, 0) {
        assert(v@.subrange(0, w.len() as int) == v@.take(w.len() as int));
        let t = string_from_chars(&v, w.len(), v.len());
        assert(v@.subrange(w.len() as int, v.len() as int) == v@.skip(w.len() as int));
        Some(t)
    } else {
        assert(v@.subrange(0, w.len() as int) == v@.take(w.len() as int));
        None
    }
}

// ---------------------------------------------------------------------------
// Whitespace
// ---------------------------------------------------------------------------

/// The characters with the Unicode `White_Space` property (those for which
/// `char::is_whitespace` holds).
pub open spec fn is_white_space(c: char) -> bool {
    ||| ('\u{9}' <= c && c <= '\u{d}')
    ||| c == ' '
    ||| c == '\u{85}'
    ||| c == '\u{a0}'
    ||| c == '\u{1680}'
    ||| ('\u{2000}' <= c && c <= '\u{200a}')
    ||| c == '\u{2028}'
    ||| c == '\u{2029}'
    ||| c == '\u{202f}'
    ||| c == '\u{205f}'
    ||| c == '\u{3000}'
}

/// Whether `c` is a white-space character.
pub fn white_space(c: char) -> (r: bool)
    ensures
        r == is_white_space(c),
{
    ('\u{9}' <= c && c <= '\u{d}') || c == ' ' || c == '\u{85}' || c == '\u{a0}' || c == '\u{1680}'
        || ('\u{2000}' <= c && c <= '\u{200a}') || c == '\u{2028}' || c == '\u{2029}' || c
        == '\u{202f}' || c == '\u{205f}' || c == '\u{3000}'
}

/// `s` without its leading white space.
pub open spec fn trim_start(s: Seq<char>) -> Seq<char>
    decreases s.len(),
{
    if s.len() > 0 && is_white_space(s[0]) {
        trim_start(s.drop_first())
    } else {
        s
    }
}

/// `s` without its trailing white space.
pub open spec fn trim_end(s: Seq<char>) -> Seq<char>
    decreases s.len(),
{
    if s.len() > 0 && is_white_space(s.last()) {
        trim_end(s.drop_last())
    } else {
        s
    }
}

/// `s` without leading and trailing white space (`str::trim`).
pub open spec fn trim(s: Seq<char>) -> Seq<char> {
    trim_end(trim_start(s))
}

/// `s` without leading and trailing white space (`str::trim`).
pub fn trimmed(s: &str) -> (r: String)
    ensures
        r@ == trim(s@),
{
    let v = chars_of(s);
    let mut lo: usize = 0;
    assert(v@.skip(0) =~= v@);
    while lo < v.len() && white_space(v[lo])
        invariant
            0 <= lo <= v.len(),
            v@ == s@,
            trim_start(s@) == trim_start(v@.skip(lo as int)),
        decreases v.len() - lo,
    {
        assert(v@.skip(lo as int).drop_first() =~= v@.skip(lo + 1));
        lo = lo + 1;
    }
    let ghost t = v@.skip(lo as int);
    assert(trim_start(s@) == t);
    let mut hi: usize = v.len();
    assert(t.take(t.len() as int) =~= t);
    while hi > lo && white_space(v[hi - 1])
        invariant
            lo <= hi <= v.len(),
            v@ == s@,
            t == v@.skip(lo as int),
            trim_end(t) == trim_end(t.take(hi - lo)),
        decreases hi - lo,
    {
        assert(t.take(hi - lo).drop_last() =~= t.take(hi - 1 - lo));
        hi = hi - 1;
    }
    assert(t.take(hi - lo) =~= v@.subrange(lo as int, hi as int));
    string_from_chars(&v, lo, hi)
}

/// Whether `s` holds nothing but white space.
pub fn is_blank(s: &str) -> (r: bool)
    ensures
        r == (trim(s@).len() == 0),
{
    let t = trimmed(s);
    t.as_str().is_empty()
}

// ---------------------------------------------------------------------------
// Unsigned integer numerals
// ---------------------------------------------------------------------------

/// Why a numeral was refused (the kinds of `std::num::ParseIntError`).
#[derive(Debug, PartialEq, Eq, Structural)]
pub enum IntErrorKind {
    Empty,
    InvalidDigit,
    PosOverflow,
}

/// The message that `std::num::ParseIntError` shows for each kind.
pub open spec fn int_error_text(kind: IntErrorKind) -> Seq<char> {
    match kind {
        IntErrorKind::Empty => "cannot parse integer from empty string"@,
        IntErrorKind::InvalidDigit => "invalid digit found in string"@,
        IntErrorKind::PosOverflow => "number too large to fit in target type"@,
    }
}

/// The message for a refused numeral.
pub fn int_error_message(kind: &IntErrorKind) -> (r: &'static str)
    ensures
        r@ == int_error_text(*kind),
{
    match kind {
        IntErrorKind::Empty => "cannot parse integer from empty string",
        IntErrorKind::InvalidDigit => "invalid digit found in string",
        IntErrorKind::PosOverflow => "number too large to fit in target type",
    }
}

/// Whether `c` is an ASCII digit.
pub open spec fn is_digit(c: char) -> bool {
    '0' <= c && c <= '9'
}

/// Reads the digits `d` from the left onto `acc`, as unsigned arithmetic
/// bounded by `max` does: the first character that is no digit, or the
/// first digit that takes the value past `max`, ends the reading with an
/// error.
pub open spec fn scan_digits(d: Seq<char>, acc: nat, max: nat) -> Result<nat, IntErrorKind>
    decreases d.len(),
{
    if d.len() == 0 {
        Ok(acc)
    } else if !is_digit(d[0]) {
        Err(IntErrorKind::InvalidDigit)
    } else if acc * 10 + (d[0] as int - 48) > max {
        Err(IntErrorKind::PosOverflow)
    } else {
        scan_digits(d.drop_first(), (acc * 10 + (d[0] as int - 48)) as nat, max)
    }
}

/// What `str::parse` returns for an unsigned type whose largest value is
/// `max`: an optional `+` followed by ASCII digits whose value is at most
/// `max`.
pub open spec fn parse_unsigned(s: Seq<char>, max: nat) -> Result<nat, IntErrorKind> {
    if s.len() == 0 {
        Err(IntErrorKind::Empty)
    } else if s.len() == 1 && (s[0] == '+' || s[0] == '-') {
        Err(IntErrorKind::InvalidDigit)
    } else {
        let d = if s[0] == '+' {
            s.drop_first()
        } else {
            s
        };
        scan_digits(d, 0, max)
    }
}

/// What `str::parse::<usize>` returns.
pub open spec fn parse_usize(s: Seq<char>) -> Result<usize, IntErrorKind> {
    match parse_unsigned(s, usize::MAX as nat) {
        Ok(v) => Ok(v as usize),
        Err(k) => Err(k),
    }
}

/// What `str::parse::<u16>` returns.
pub open spec fn parse_u16(s: Seq<char>) -> Result<u16, IntErrorKind> {
    match parse_unsigned(s, u16::MAX as nat) {
        Ok(v) => Ok(v as u16),
        Err(k) => Err(k),
    }
}

/// Parses an unsigned integer no greater than `max` as `str::parse` does
/// for an unsigned type whose largest value is `max`.
pub fn parse_unsigned_of(s: &str, max: usize) -> (r: Result<usize, IntErrorKind>)
    ensures
        match r {
            Ok(v) => parse_unsigned(s@, max as nat) == Ok::<nat, IntErrorKind>(v as nat),
            Err(k) => parse_unsigned(s@, max as nat) == Err::<nat, IntErrorKind>(k),
        },
{
    let v = chars_of(s);
    if v.len() == 0 {
        return Err(IntErrorKind::Empty);
    }
    if v.len() == 1 && (v[0] == '+' || v[0] == '-') {
        return Err(IntErrorKind::InvalidDigit);
    }
    let start: usize = if v[0] == '+' { 1 } else { 0 };
    let ghost d = if s@[0] == '+' { s@.drop_first() } else { s@ };
    assert(d =~= v@.skip(start as int));
    let mut value: usize = 0;
    let mut i: usize = start;
    while i < v.len()
        invariant
            start <= i <= v.len(),
            v@ == s@,
            value <= max,
            parse_unsigned(s@, max as nat) == scan_digits(d, 0, max as nat),
            d == v@.skip(start as int),
            scan_digits(d, 0, max as nat) == scan_digits(v@.skip(i as int), value as nat, max as nat),
        decreases v.len() - i,
    {
        let c = v[i];
        assert(v@.skip(i as int)[0] == c);
        assert(v@.skip(i as int).drop_first() =~= v@.skip(i + 1));
        if !('0' <= c && c <= '9') {
            return Err(IntErrorKind::InvalidDigit);
        }
        let dv: u8 = c as u8 - 48;
        let next = match value.checked_mul(10) {
            Some(m) => m.checked_add(dv as usize),
            None => None,
        };
        match next {
            Some(nv) => {
                if nv > max {
                    return Err(IntErrorKind::PosOverflow);
                }
                value = nv;
            },
            None => {
                return Err(IntErrorKind::PosOverflow);
            },
        }
        i = i + 1;
    }
    assert(v@.skip(i as int).len() == 0);
    Ok(value)
}

/// Parses an unsigned integer as `str::parse::<usize>` does.
pub fn parse_usize_of(s: &str) -> (r: Result<usize, IntErrorKind>)
    ensures
        r == parse_usize(s@),
{
    let r = parse_unsigned_of(s, usize::MAX);
    match r {
        Ok(v) => Ok(v),
        Err(k) => Err(k),
    }
}

/// Parses an unsigned integer as `str::parse::<u16>` does.
pub fn parse_u16_of(s: &str) -> (r: Result<u16, IntErrorKind>)
    ensures
        r == parse_u16(s@),
{
    match parse_unsigned_of(s, 65535) {
        Ok(v) => Ok(v as u16),
        Err(k) => Err(k),
    }
}

// ---------------------------------------------------------------------------
// JavaScript string literals
// ---------------------------------------------------------------------------

/// Replaces every `c` in `s` by `r` (`str::replace` with a one-character pattern).
pub open spec fn replace_char(s: Seq<char>, c: char, r: Seq<char>) -> Seq<char>
    decreases s.len(),
{
    if s.len() == 0 {
        Seq::empty()
    } else {
        (if s[0] == c {
            r
        } else {
            seq![s[0]]
        }) + replace_char(s.drop_first(), c, r)
    }
}

/// The escape of one character inside a single-quoted JavaScript string.
pub open spec fn escape_js_char(c: char) -> Seq<char> {
    if c == '\\' {
        seq!['\\', '\\']
    } else if c == '\'' {
        seq!['\\', '\'']
    } else if c == '\n' {
        seq!['\\', 'n']
    } else if c == '\r' {
        seq!['\\', 'r']
    } else if c == '\t' {
        seq!['\\', 't']
    } else {
        seq![c]
    }
}

/// `s` with each character escaped for a single-quoted JavaScript string.
pub open spec fn js_escape(s: Seq<char>) -> Seq<char>
    decreases s.len(),
{
    if s.len() == 0 {
        Seq::empty()
    } else {
        escape_js_char(s[0]) + js_escape(s.drop_first())
    }
}

/// The replacements applied one after the other: backslash, quote, line
/// feed, carriage return, tab.
pub open spec fn escape_chain(s: Seq<char>) -> Seq<char> {
    replace_char(
        replace_char(
            replace_char(
                replace_char(replace_char(s, '\\', seq!['\\', '\\']), '\'', seq!['\\', '\'']),
                '\n',
                seq!['\\', 'n'],
            ),
            '\r',
            seq!['\\', 'r'],
        ),
        '\t',
        seq!['\\', 't'],
    )
}

/// The character that a backslash followed by `c` stands for.
pub open spec fn unescape_js_char(c: char) -> char {
    if c == 'n' {
        '\n'
    } else if c == 'r' {
        '\r'
    } else if c == 't' {
        '\t'
    } else {
        c
    }
}

/// The characters that the body `t` of a single-quoted JavaScript string
/// stands for, reading the escapes `\\`, `\'`, `\n`, `\r` and `\t`.
pub open spec fn js_unescape(t: Seq<char>) -> Seq<char>
    decreases t.len(),
{
    if t.len() == 0 {
        Seq::empty()
    } else if t[0] == '\\' && t.len() >= 2 {
        seq![unescape_js_char(t[1])] + js_unescape(t.skip(2))
    } else {
        seq![t[0]] + js_unescape(t.drop_first())
    }
}

/// Whether `t` can stand between single quotes in JavaScript source: every
/// backslash starts an escape, and no bare quote or line break occurs.
pub open spec fn js_literal_body(t: Seq<char>) -> bool
    decreases t.len(),
{
    if t.len() == 0 {
        true
    } else if t[0] == '\\' {
        t.len() >= 2 && js_literal_body(t.skip(2))
    } else {
        t[0] != '\'' && t[0] != '\n' && t[0] != '\r' && js_literal_body(t.drop_first())
    }
}

pub proof fn lemma_replace_char_concat(a: Seq<char>, b: Seq<char>, c: char, r: Seq<char>)
    ensures
        replace_char(a + b, c, r) == replace_char(a, c, r) + replace_char(b, c, r),
    decreases a.len(),
{
    if a.len() == 0 {
        assert(a + b =~= b);
        assert(replace_char(a, c, r) =~= Seq::<char>::empty());
        assert(replace_char(a + b, c, r) =~= replace_char(a, c, r) + replace_char(b, c, r));
    } else {
        assert((a + b)[0] == a[0]);
        assert((a + b).drop_first() =~= a.drop_first() + b);
        lemma_replace_char_concat(a.drop_first(), b, c, r);
        assert(replace_char(a + b, c, r) =~= replace_char(a, c, r) + replace_char(b, c, r));
    }
}

proof fn lemma_replace_char_one(x: char, c: char, r: Seq<char>)
    ensures
        replace_char(seq![x], c, r) == (if x == c {
            r
        } else {
            seq![x]
        }),
{
    assert(seq![x].drop_first() =~= Seq::<char>::empty());
    let e: Seq<char> = if x == c { r } else { seq![x] };
    assert(replace_char(seq![x], c, r) =~= e + replace_char(Seq::<char>::empty(), c, r));
    assert(e + Seq::<char>::empty() =~= e);
}

proof fn lemma_replace_char_two(x: char, y: char, c: char, r: Seq<char>)
    ensures
        replace_char(seq![x, y], c, r) == replace_char(seq![x], c, r) + replace_char(seq![y], c, r),
{
    assert(seq![x, y] =~= seq![x] + seq![y]);
    lemma_replace_char_concat(seq![x], seq![y], c, r);
}

pub proof fn lemma_escape_chain_concat(a: Seq<char>, b: Seq<char>)
    ensures
        escape_chain(a + b) == escape_chain(a) + escape_chain(b),
{
    let a1 = replace_char(a, '\\', seq!['\\', '\\']);
    let b1 = replace_char(b, '\\', seq!['\\', '\\']);
    lemma_replace_char_concat(a, b, '\\', seq!['\\', '\\']);
    let a2 = replace_char(a1, '\'', seq!['\\', '\'']);
    let b2 = replace_char(b1, '\'', seq!['\\', '\'']);
    lemma_replace_char_concat(a1, b1, '\'', seq!['\\', '\'']);
    let a3 = replace_char(a2, '\n', seq!['\\', 'n']);
    let b3 = replace_char(b2, '\n', seq!['\\', 'n']);
    lemma_replace_char_concat(a2, b2, '\n', seq!['\\', 'n']);
    let a4 = replace_char(a3, '\r', seq!['\\', 'r']);
    let b4 = replace_char(b3, '\r', seq!['\\', 'r']);
    lemma_replace_char_concat(a3, b3, '\r', seq!['\\', 'r']);
    lemma_replace_char_concat(a4, b4, '\t', seq!['\\', 't']);
}

proof fn lemma_chain_two(x: char, y: char, c: char, r: Seq<char>)
    requires
        x != c,
        y != c,
    ensures
        replace_char(seq![x, y], c, r) == seq![x, y],
{
    lemma_replace_char_two(x, y, c, r);
    lemma_replace_char_one(x, c, r);
    lemma_replace_char_one(y, c, r);
    assert(seq![x] + seq![y] =~= seq![x, y]);
}

proof fn lemma_escape_chain_char(c: char)
    ensures
        escape_chain(seq![c]) == escape_js_char(c),
{
    lemma_replace_char_one(c, '\\', seq!['\\', '\\']);
    if c == '\\' {
        lemma_chain_two('\\', '\\', '\'', seq!['\\', '\'']);
        lemma_chain_two('\\', '\\', '\n', seq!['\\', 'n']);
        lemma_chain_two('\\', '\\', '\r', seq!['\\', 'r']);
        lemma_chain_two('\\', '\\', '\t', seq!['\\', 't']);
    } else {
        lemma_replace_char_one(c, '\'', seq!['\\', '\'']);
        if c == '\'' {
            lemma_chain_two('\\', '\'', '\n', seq!['\\', 'n']);
            lemma_chain_two('\\', '\'', '\r', seq!['\\', 'r']);
            lemma_chain_two('\\', '\'', '\t', seq!['\\', 't']);
        } else {
            lemma_replace_char_one(c, '\n', seq!['\\', 'n']);
            if c == '\n' {
                lemma_chain_two('\\', 'n', '\r', seq!['\\', 'r']);
                lemma_chain_two('\\', 'n', '\t', seq!['\\', 't']);
            } else {
                lemma_replace_char_one(c, '\r', seq!['\\', 'r']);
                if c == '\r' {
                    lemma_chain_two('\\', 'r', '\t', seq!['\\', 't']);
                } else {
                    lemma_replace_char_one(c, '\t', seq!['\\', 't']);
                }
            }
        }
    }
}

pub proof fn lemma_js_escape_concat(a: Seq<char>, b: Seq<char>)
    ensures
        js_escape(a + b) == js_escape(a) + js_escape(b),
    decreases a.len(),
{
    if a.len() == 0 {
        assert(a + b =~= b);
        assert(js_escape(a + b) =~= js_escape(a) + js_escape(b));
    } else {
        assert((a + b)[0] == a[0]);
        assert((a + b).drop_first() =~= a.drop_first() + b);
        lemma_js_escape_concat(a.drop_first(), b);
        assert(js_escape(a + b) =~= js_escape(a) + js_escape(b));
    }
}

/// Escaping one character at a time gives the same text as applying the
/// five replacements one after the other.
pub proof fn law_escape_is_replacement_chain(s: Seq<char>)
    ensures
        js_escape(s) == escape_chain(s),
    decreases s.len(),
{
    if s.len() == 0 {
        assert(escape_chain(s) =~= Seq::<char>::empty()) by {
            reveal_with_fuel(replace_char, 2);
        }
    } else {
        law_escape_is_replacement_chain(s.drop_first());
        assert(s =~= seq![s[0]] + s.drop_first());
        lemma_escape_chain_concat(seq![s[0]], s.drop_first());
        lemma_escape_chain_char(s[0]);
    }
}

/// Reading the escaped text back as a JavaScript string body gives the
/// original text.
pub proof fn law_js_unescape_inverts_escape(s: Seq<char>)
    ensures
        js_unescape(js_escape(s)) == s,
    decreases s.len(),
{
    if s.len() > 0 {
        let rest = js_escape(s.drop_first());
        law_js_unescape_inverts_escape(s.drop_first());
        let e = escape_js_char(s[0]);
        let t = e + rest;
        if e.len() == 2 {
            assert(t[0] == '\\');
            assert(t.skip(2) =~= rest);
            assert(js_unescape(t) == seq![unescape_js_char(t[1])] + js_unescape(rest));
        } else {
            assert(t[0] == s[0]);
            assert(t.drop_first() =~= rest);
        }
        assert(s =~= seq![s[0]] + s.drop_first());
    }
}

/// The escaped text can stand between single quotes in JavaScript source.
pub proof fn law_escaped_text_is_literal_body(s: Seq<char>)
    ensures
        js_literal_body(js_escape(s)),
    decreases s.len(),
{
    if s.len() > 0 {
        let rest = js_escape(s.drop_first());
        law_escaped_text_is_literal_body(s.drop_first());
        let e = escape_js_char(s[0]);
        let t = e + rest;
        if e.len() == 2 {
            assert(t.skip(2) =~= rest);
        } else {
            assert(t.drop_first() =~= rest);
        }
    }
}

/// Escapes backslashes, single quotes, line feeds, carriage returns and
/// tabs so that the text can stand inside a single-quoted JavaScript string.
pub fn escape_js_string(s: &str) -> (r: String)
    ensures
        r@ == js_escape(s@),
        r@ == escape_chain(s@),
{
    let v = chars_of(s);
    let mut r = String::new();
    let mut i: usize = 0;
    assert(v@.take(0) =~= Seq::<char>::empty());
    while i < v.len()
        invariant
            0 <= i <= v.len(),
            v@ == s@,
            r@ == js_escape(v@.take(i as int)),
        decreases v.len() - i,
    {
        let c = v[i];
        if c == '\\' {
            r.append("\\\\");
        } else if c == '\'' {
            r.append("\\'");
        } else if c == '\n' {
            r.append("\\n");
        } else if c == '\r' {
            r.append("\\r");
        } else if c == '\t' {
            r.append("\\t");
        } else {
            push_char(&mut r, c);
        }
        proof {
            reveal_strlit("\\\\");
            reveal_strlit("\\'");
            reveal_strlit("\\n");
            reveal_strlit("\\r");
            reveal_strlit("\\t");
            assert(v@.take(i + 1) =~= v@.take(i as int) + seq![c]);
            lemma_js_escape_concat(v@.take(i as int), seq![c]);
            assert(js_escape(seq![c]) =~= escape_js_char(c) + js_escape(seq![c].drop_first()));
            assert(seq![c].drop_first() =~= Seq::<char>::empty());
            assert(escape_js_char(c) + js_escape(Seq::<char>::empty()) =~= escape_js_char(c));
        }
        i = i + 1;
    }
    assert(v@.take(i as int) =~= v@);
    proof {
        law_escape_is_replacement_chain(s@);
    }
    r
}

/// Puts a backslash before every single quote (`s.replace("'", "\\'")`).
pub fn escape_quotes(s: &str) -> (r: String)
    ensures
        r@ == replace_char(s@, '\'', seq!['\\', '\'']),
{
    let v = chars_of(s);
    let mut r = String::new();
    let mut i: usize = 0;
    assert(v@.take(0) =~= Seq::<char>::empty());
    while i < v.len()
        invariant
            0 <= i <= v.len(),
            v@ == s@,
            r@ == replace_char(v@.take(i as int), '\'', seq!['\\', '\'']),
        decreases v.len() - i,
    {
        let c = v[i];
        if c == '\'' {
            r.append("\\'");
        } else {
            push_char(&mut r, c);
        }
        proof {
            reveal_strlit("\\'");
            assert(v@.take(i + 1) =~= v@.take(i as int) + seq![c]);
            lemma_replace_char_concat(v@.take(i as int), seq![c], '\'', seq!['\\', '\'']);
            lemma_replace_char_one(c, '\'', seq!['\\', '\'']);
        }
        i = i + 1;
    }
    assert(v@.take(i as int) =~= v@);
    r
}

// ---------------------------------------------------------------------------
// Previews
// ---------------------------------------------------------------------------

/// What is appended to a text that was cut short.
pub const TRUNCATION_MARK: &'static str = "... (truncated)";

/// The preview of `text`: its first `max_len` bytes followed by the
/// truncation mark when it is longer than that, else the text itself.
pub open spec fn preview(text: Seq<char>, max_len: nat) -> Seq<char> {
    let bytes = encode_utf8(text);
    if bytes.len() > max_len {
        decode_utf8(bytes.take(max_len as int)) + TRUNCATION_MARK@
    } else {
        text
    }
}

/// Whether `text` can be cut at byte `max_len`: its encoding fits in
/// memory, and when it is longer than `max_len` bytes, byte `max_len`
/// starts a character.
pub open spec fn can_cut(text: Seq<char>, max_len: nat) -> bool {
    &&& encode_utf8(text).len() <= usize::MAX
    &&& encode_utf8(text).len() > max_len ==> is_char_boundary(encode_utf8(text), max_len as int)
}

/// Cuts `text` to at most `max_len` bytes for display, marking the cut.
/// A cut must fall on a character boundary.
pub fn truncate_preview(text: &str, max_len: usize) -> (r: String)
    requires
        can_cut(text@, max_len as nat),
    ensures
        r@ == preview(text@, max_len as nat),
{
    broadcast use encode_utf8_decode_utf8;

    if text.len() > max_len {
        let (head, _tail) = text.split_at(max_len);
        let mut r = head.to_owned();
        r.append(TRUNCATION_MARK);
        assert(head@ == decode_utf8(encode_utf8(head@)));
        assert(text.spec_bytes().subrange(0, max_len as int) == text.spec_bytes().take(max_len as int));
        r
    } else {
        text.to_owned()
    }
}
} // verus!
