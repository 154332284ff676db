//! Byte-level text primitives shared by the request parsers and validators.
//!
//! Every request string in this crate is inspected through its UTF-8 bytes.
//! The delimiters and character classes that the API cares about are ASCII,
//! so working on bytes gives the same answers as working on characters.
use vstd::prelude::*;
use vstd::string::{StrSliceExecFns, StringSliceAdditionalSpecFns};

verus! {

/// The byte `b` is one of the ASCII whitespace bytes that Rust's
/// `u8::is_ascii_whitespace` accepts.
pub open spec fn is_ws(b: u8) -> bool {
    b == 0x20u8 || b == 0x09u8 || b == 0x0Au8 || b == 0x0Cu8 || b == 0x0Du8
}

pub open spec fn is_digit(b: u8) -> bool {
    0x30u8 <= b <= 0x39u8
}

pub open spec fn is_lower(b: u8) -> bool {
    0x61u8 <= b <= 0x7Au8
}

pub open spec fn is_upper(b: u8) -> bool {
    0x41u8 <= b <= 0x5Au8
}

pub open spec fn is_alpha(b: u8) -> bool {
    is_lower(b) || is_upper(b)
}

pub open spec fn is_alnum(b: u8) -> bool {
    is_alpha(b) || is_digit(b)
}

pub open spec fn is_hex_digit(b: u8) -> bool {
    is_digit(b) || (0x41u8 <= b <= 0x46u8) || (0x61u8 <= b <= 0x66u8)
}

/// Printable ASCII other than the space (`u8::is_ascii_graphic`).
pub open spec fn is_graphic(b: u8) -> bool {
    0x21u8 <= b <= 0x7Eu8
}

/// ASCII control bytes (`u8::is_ascii_control`).
pub open spec fn is_control(b: u8) -> bool {
    b <= 0x1Fu8 || b == 0x7Fu8
}

pub open spec fn to_lower(b: u8) -> u8 {
    if is_upper(b) {
        (b + 32) as u8
    } else {
        b
    }
}

pub open spec fn to_upper(b: u8) -> u8 {
    if is_lower(b) {
        (b - 32) as u8
    } else {
        b
    }
}

pub fn byte_is_ws(b: u8) -> (r: bool)
    ensures
        r == is_ws(b),
{
    b == 0x20 || b == 0x09 || b == 0x0A || b == 0x0C || b == 0x0D
}

pub fn byte_is_digit(b: u8) -> (r: bool)
    ensures
        r == is_digit(b),
{
    0x30 <= b && b <= 0x39
}

pub fn byte_is_alpha(b: u8) -> (r: bool)
    ensures
        r == is_alpha(b),
{
    (0x61 <= b && b <= 0x7A) || (0x41 <= b && b <= 0x5A)
}

pub fn byte_is_alnum(b: u8) -> (r: bool)
    ensures
        r == is_alnum(b),
{
    byte_is_alpha(b) || byte_is_digit(b)
}

pub fn byte_is_hex_digit(b: u8) -> (r: bool)
    ensures
        r == is_hex_digit(b),
{
    byte_is_digit(b) || (0x41 <= b && b <= 0x46) || (0x61 <= b && b <= 0x66)
}

pub fn byte_to_lower(b: u8) -> (r: u8)
    ensures
        r == to_lower(b),
{
    if 0x41 <= b && b <= 0x5A {
        b + 32
    } else {
        b
    }
}

pub fn byte_to_upper(b: u8) -> (r: u8)
    ensures
        r == to_upper(b),
{
    if 0x61 <= b && b <= 0x7A {
        b - 32
    } else {
        b
    }
}

/// Two strings hold the same text exactly when their UTF-8 encodings agree.
pub proof fn lemma_bytes_eq_iff_str_eq(a: &str, b: &str)
    ensures
        (a.spec_bytes() == b.spec_bytes()) <==> (a@ == b@),
{
    vstd::utf8::encode_utf8_decode_utf8(a@);
    vstd::utf8::encode_utf8_decode_utf8(b@);
}

/// Compares `bytes[start..end]` with `lit`.
pub fn range_eq(bytes: &[u8], start: usize, end: usize, lit: &[u8]) -> (r: bool)
    requires
        start <= end <= bytes@.len(),
    ensures
        r == (bytes@.subrange(start as int, end as int) == lit@),
{
    if end - start != lit.len() {
        proof {
            assert(bytes@.subrange(start as int, end as int).len() != lit@.len());
        }
        return false;
    }
    let mut i: usize = 0;
    while i < lit.len()
        invariant
            start <= end <= bytes@.len(),
            end - start == lit@.len(),
            i <= lit@.len(),
            forall|k: int| 0 <= k < i ==> bytes@[start + k] == lit@[k],
        decreases lit@.len() - i,
    {
        if bytes[start + i] != lit[i] {
            proof {
                assert(bytes@.subrange(start as int, end as int)[i as int] != lit@[i as int]);
            }
            return false;
        }
        i = i + 1;
    }
    proof {
        assert(bytes@.subrange(start as int, end as int) =~= lit@);
    }
    true
}

/// Whether two strings hold the same text (Rust's `==` on `str`).
pub fn str_eq(a: &str, b: &str) -> (r: bool)
    ensures
        r == (a@ == b@),
{
    let ab = a.as_bytes();
    let bb = b.as_bytes();
    let r = range_eq(ab, 0, ab.len(), bb);
    proof {
        assert(ab@.subrange(0, ab@.len() as int) =~= ab@);
        lemma_bytes_eq_iff_str_eq(a, b);
    }
    r
}

/// Whether `bytes` begins with `prefix` (`str::starts_with` on a string prefix).
pub open spec fn has_prefix(bytes: Seq<u8>, prefix: Seq<u8>) -> bool {
    prefix.len() <= bytes.len() && bytes.subrange(0, prefix.len() as int) == prefix
}

pub fn starts_with(s: &[u8], prefix: &[u8]) -> (r: bool)
    ensures
        r == has_prefix(s@, prefix@),
{
    if prefix.len() > s.len() {
        return false;
    }
    range_eq(s, 0, prefix.len(), prefix)
}

/// Whether every byte of `bytes` satisfies `p`.
pub open spec fn all_bytes(bytes: Seq<u8>, p: spec_fn(u8) -> bool) -> bool {
    forall|i: int| 0 <= i < bytes.len() ==> #[trigger] p(bytes[i])
}


/// `bytes` with every leading `c` removed.
pub open spec fn trim_start_byte(bytes: Seq<u8>, c: u8) -> Seq<u8>
    decreases bytes.len(),
{
    if bytes.len() > 0 && bytes[0] == c {
        trim_start_byte(bytes.drop_first(), c)
    } else {
        bytes
    }
}

/// `bytes` with every trailing `c` removed.
pub open spec fn trim_end_byte(bytes: Seq<u8>, c: u8) -> Seq<u8>
    decreases bytes.len(),
{
    if bytes.len() > 0 && bytes.last() == c {
        trim_end_byte(bytes.drop_last(), c)
    } else {
        bytes
    }
}

/// `str::trim_matches(c)` for an ASCII `c`.
pub open spec fn trim_byte(bytes: Seq<u8>, c: u8) -> Seq<u8> {
    trim_end_byte(trim_start_byte(bytes, c), c)
}

/// `str::split(c)` for an ASCII `c`: the pieces between occurrences of `c`.
/// Splitting the empty text gives one empty piece.
pub open spec fn split_byte(bytes: Seq<u8>, c: u8) -> Seq<Seq<u8>>
    decreases bytes.len(),
{
    if bytes.len() == 0 {
        seq![Seq::<u8>::empty()]
    } else {
        let init = split_byte(bytes.drop_last(), c);
        if bytes.last() == c {
            init.push(Seq::<u8>::empty())
        } else {
            init.update(init.len() - 1, init.last().push(bytes.last()))
        }
    }
}

proof fn lemma_split_byte_nonempty(bytes: Seq<u8>, c: u8)
    ensures
        split_byte(bytes, c).len() >= 1,
    decreases bytes.len(),
{
    if bytes.len() > 0 {
        lemma_split_byte_nonempty(bytes.drop_last(), c);
    }
}

proof fn lemma_trim_start_index(bytes: Seq<u8>, c: u8, lo: int)
    requires
        0 <= lo <= bytes.len(),
        forall|k: int| 0 <= k < lo ==> bytes[k] == c,
        lo == bytes.len() || bytes[lo] != c,
    ensures
        trim_start_byte(bytes, c) == bytes.subrange(lo, bytes.len() as int),
    decreases lo,
{
    if lo == 0 {
        assert(bytes.subrange(0, bytes.len() as int) =~= bytes);
    } else {
        lemma_trim_start_index(bytes.drop_first(), c, lo - 1);
        assert(bytes.drop_first().subrange(lo - 1, bytes.len() - 1) =~= bytes.subrange(
            lo,
            bytes.len() as int,
        ));
    }
}

proof fn lemma_trim_end_index(bytes: Seq<u8>, c: u8, hi: int)
    requires
        0 <= hi <= bytes.len(),
        forall|k: int| hi <= k < bytes.len() ==> bytes[k] == c,
        hi == 0 || bytes[hi - 1] != c,
    ensures
        trim_end_byte(bytes, c) == bytes.subrange(0, hi),
    decreases bytes.len() - hi,
{
    if hi == bytes.len() {
        assert(bytes.subrange(0, hi) =~= bytes);
    } else {
        lemma_trim_end_index(bytes.drop_last(), c, hi);
        assert(bytes.drop_last().subrange(0, hi) =~= bytes.subrange(0, hi));
    }
}

/// Where the text that `trim_byte(bytes, c)` leaves begins and ends in `bytes`.
pub fn trim_bounds(bytes: &[u8], c: u8) -> (r: (usize, usize))
    ensures
        r.0 <= r.1 <= bytes@.len(),
        trim_byte(bytes@, c) == bytes@.subrange(r.0 as int, r.1 as int),
{
    let n = bytes.len();
    let mut lo: usize = 0;
    while lo < n && bytes[lo] == c
        invariant
            lo <= n == bytes@.len(),
            forall|k: int| 0 <= k < lo ==> bytes@[k] == c,
        decreases n - lo,
    {
        lo = lo + 1;
    }
    let mut hi: usize = n;
    while hi > lo && bytes[hi - 1] == c
        invariant
            lo <= hi <= n == bytes@.len(),
            forall|k: int| hi <= k < n ==> bytes@[k] == c,
        decreases hi - lo,
    {
        hi = hi - 1;
    }
    proof {
        lemma_trim_start_index(bytes@, c, lo as int);
        let rest = bytes@.subrange(lo as int, n as int);
        lemma_trim_end_index(rest, c, hi - lo);
        assert(rest.subrange(0, hi - lo) =~= bytes@.subrange(lo as int, hi as int));
    }
    (lo, hi)
}

/// The pieces named by `ranges`, cut out of `bytes`.
pub open spec fn pieces(bytes: Seq<u8>, ranges: Seq<(usize, usize)>) -> Seq<Seq<u8>> {
    ranges.map_values(|r: (usize, usize)| bytes.subrange(r.0 as int, r.1 as int))
}

pub open spec fn ranges_in(ranges: Seq<(usize, usize)>, lo: int, hi: int) -> bool {
    forall|i: int| 0 <= i < ranges.len() ==> lo <= #[trigger] ranges[i].0 <= ranges[i].1 <= hi
}

/// Splits `bytes[lo..hi]` at every `c`, as `str::split` does, and returns where
/// each piece lies in `bytes`.
pub fn split_ranges(bytes: &[u8], lo: usize, hi: usize, c: u8) -> (r: Vec<(usize, usize)>)
    requires
        lo <= hi <= bytes@.len(),
    ensures
        ranges_in(r@, lo as int, hi as int),
        pieces(bytes@, r@) == split_byte(bytes@.subrange(lo as int, hi as int), c),
{
    let mut out: Vec<(usize, usize)> = Vec::new();
    let mut start = lo;
    let mut i = lo;
    proof {
        assert(bytes@.subrange(lo as int, lo as int) =~= Seq::<u8>::empty());
        assert(pieces(bytes@, out@).push(bytes@.subrange(start as int, i as int)) =~= seq![
            Seq::<u8>::empty(),
        ]);
    }
    while i < hi
        invariant
            lo <= start <= i <= hi <= bytes@.len(),
            ranges_in(out@, lo as int, i as int),
            pieces(bytes@, out@).push(bytes@.subrange(start as int, i as int)) == split_byte(
                bytes@.subrange(lo as int, i as int),
                c,
            ),
        decreases hi - i,
    {
        let ghost prev = bytes@.subrange(lo as int, i as int);
        let ghost next = bytes@.subrange(lo as int, i + 1);
        proof {
            assert(next.drop_last() =~= prev);
            assert(next.last() == bytes@[i as int]);
        }
        if bytes[i] == c {
            let ghost before = out@;
            out.push((start, i));
            proof {
                assert forall|k: int| 0 <= k < out@.len() implies lo <= #[trigger] out@[k].0
                    <= out@[k].1 <= i + 1 by {
                    if k < before.len() {
                        assert(out@[k] == before[k]);
                    }
                }
            }
            start = i + 1;
            proof {
                assert(bytes@.subrange(start as int, i + 1) =~= Seq::<u8>::empty());
                assert(pieces(bytes@, out@) =~= split_byte(prev, c));
            }
        } else {
            proof {
                assert forall|k: int| 0 <= k < out@.len() implies lo <= #[trigger] out@[k].0
                    <= out@[k].1 <= i + 1 by {}
                let init = split_byte(prev, c);
                assert(bytes@.subrange(start as int, i + 1) =~= bytes@.subrange(
                    start as int,
                    i as int,
                ).push(bytes@[i as int]));
                assert(pieces(bytes@, out@).push(bytes@.subrange(start as int, i + 1)) =~= init.update(
                    init.len() - 1,
                    init.last().push(next.last()),
                ));
            }
        }
        i = i + 1;
    }
    out.push((start, hi));
    proof {
        assert(pieces(bytes@, out@) =~= split_byte(bytes@.subrange(lo as int, hi as int), c));
    }
    out
}


/// Appends the bytes of `src` to `out`.
pub fn append_bytes(out: &mut Vec<u8>, src: &[u8])
    ensures
        final(out)@ == old(out)@ + src@,
{
    let mut i: usize = 0;
    while i < src.len()
        invariant
            i <= src@.len(),
            out@ == old(out)@ + src@.take(i as int),
        decreases src@.len() - i,
    {
        out.push(src[i]);
        proof {
            assert(src@.take(i + 1) =~= src@.take(i as int).push(src@[i as int]));
        }
        i = i + 1;
    }
    proof {
        assert(src@.take(src@.len() as int) =~= src@);
    }
}

/// Every byte is ASCII.
pub open spec fn is_ascii_bytes(bytes: Seq<u8>) -> bool {
    forall|k: int| 0 <= k < bytes.len() ==> #[trigger] bytes[k] < 128
}

/// The characters of an ASCII byte sequence.
pub open spec fn ascii_chars(bytes: Seq<u8>) -> Seq<char> {
    bytes.map_values(|x: u8| x as char)
}


/// Unicode `White_Space`, the property behind `char::is_whitespace` and
/// `str::trim`.
pub open spec fn is_unicode_ws(c: char) -> bool {
    let u = c as u32;
    (0x09 <= u <= 0x0D) || u == 0x20 || u == 0x85 || u == 0xA0 || u == 0x1680 || (0x2000 <= u
        <= 0x200A) || u == 0x2028 || u == 0x2029 || u == 0x202F || u == 0x205F || u == 0x3000
}

pub fn char_is_whitespace(c: char) -> (r: bool)
    ensures
        r == is_unicode_ws(c),
{
    let u = c as u32;
    (0x09 <= u && u <= 0x0D) || u == 0x20 || u == 0x85 || u == 0xA0 || u == 0x1680 || (0x2000
        <= u && u <= 0x200A) || u == 0x2028 || u == 0x2029 || u == 0x202F || u == 0x205F || u
        == 0x3000
}

/// The number of leading characters of `t` that are whitespace.
pub open spec fn leading_ws(t: Seq<char>) -> nat
    decreases t.len(),
{
    if t.len() > 0 && is_unicode_ws(t[0]) {
        1 + leading_ws(t.drop_first())
    } else {
        0
    }
}

/// The number of trailing characters of `t` that are whitespace.
pub open spec fn trailing_ws(t: Seq<char>) -> nat
    decreases t.len(),
{
    if t.len() > 0 && is_unicode_ws(t.last()) {
        1 + trailing_ws(t.drop_last())
    } else {
        0
    }
}

/// `str::trim`: the text without its leading and trailing whitespace.
pub open spec fn trim_chars(t: Seq<char>) -> Seq<char> {
    let rest = t.skip(leading_ws(t) as int);
    rest.take(rest.len() - trailing_ws(rest))
}

proof fn lemma_leading_ws(t: Seq<char>, lo: int)
    requires
        0 <= lo <= t.len(),
        forall|k: int| 0 <= k < lo ==> is_unicode_ws(#[trigger] t[k]),
        lo == t.len() || !is_unicode_ws(t[lo]),
    ensures
        leading_ws(t) == lo,
    decreases lo,
{
    if lo > 0 {
        lemma_leading_ws(t.drop_first(), lo - 1);
    }
}

proof fn lemma_trailing_ws(t: Seq<char>, hi: int)
    requires
        0 <= hi <= t.len(),
        forall|k: int| hi <= k < t.len() ==> is_unicode_ws(#[trigger] t[k]),
        hi == 0 || !is_unicode_ws(t[hi - 1]),
    ensures
        trailing_ws(t) == t.len() - hi,
    decreases t.len() - hi,
{
    if hi < t.len() {
        lemma_trailing_ws(t.drop_last(), hi);
    }
}

/// Text without any whitespace is its own trim.
pub proof fn lemma_trim_without_ws(t: Seq<char>)
    requires
        forall|k: int| 0 <= k < t.len() ==> !is_unicode_ws(#[trigger] t[k]),
    ensures
        trim_chars(t) == t,
{
    lemma_leading_ws(t, 0);
    assert(t.skip(0) =~= t);
    lemma_trailing_ws(t, t.len() as int);
    assert(t.take(t.len() as int) =~= t);
}

/// The characters of a string.
pub fn chars_of(s: &str) -> (v: Vec<char>)
    ensures
        v@ == s@,
{
    broadcast use vstd::string::group_string_axioms;
    let mut v: Vec<char> = Vec::new();
    for c in iter: s.chars()
        invariant
            iter.seq() == s@,
            v@ == s@.take(iter.index() as int),
    {
        v.push(c);
        proof {
            assert(s@.take(iter.index() + 1) =~= s@.take(iter.index() as int).push(c));
        }
    }
    proof {
        assert(v@ =~= s@);
    }
    v
}

/// `str::trim`, with the number of characters left.
pub fn trim_str(s: &str) -> (r: (&str, usize))
    ensures
        r.0@ == trim_chars(s@),
        r.1 == trim_chars(s@).len(),
{
    let cs = chars_of(s);
    let n = cs.len();
    let mut lo: usize = 0;
    while lo < n && char_is_whitespace(cs[lo])
        invariant
            lo <= n == cs@.len(),
            forall|k: int| 0 <= k < lo ==> is_unicode_ws(#[trigger] cs@[k]),
        decreases n - lo,
    {
        lo = lo + 1;
    }
    let mut hi: usize = n;
    while hi > lo && char_is_whitespace(cs[hi - 1])
        invariant
            lo <= hi <= n == cs@.len(),
            forall|k: int| hi <= k < n ==> is_unicode_ws(#[trigger] cs@[k]),
        decreases hi - lo,
    {
        hi = hi - 1;
    }
    proof {
        let t = s@;
        lemma_leading_ws(t, lo as int);
        let rest = t.skip(lo as int);
        assert forall|k: int| hi - lo <= k < rest.len() implies is_unicode_ws(#[trigger] rest[k]) by {
            assert(rest[k] == t[k + lo]);
        }
        if hi > lo {
            assert(rest[hi - lo - 1] == t[hi - 1]);
        }
        lemma_trailing_ws(rest, hi - lo);
        assert(trim_chars(t) =~= t.subrange(lo as int, hi as int));
    }
    let r = s.substring_char(lo, hi);
    (r, hi - lo)
}


/// The character classes that identifiers, keys and names of the API are
/// drawn from.
#[derive(Clone, Copy, Debug, PartialEq, Eq, Structural)]
pub enum ByteClass {
    /// Printable ASCII other than the space.
    Graphic,
    /// ASCII letters.
    Alphabetic,
    /// ASCII letters and digits, `_`, `-`, `:` and `.`.
    KeyChar,
    /// ASCII letters and digits and `_`.
    IdChar,
    /// Lowercase ASCII letters, digits and `_`.
    NameChar,
}

pub open spec fn in_class(class: ByteClass, b: u8) -> bool {
    match class {
        ByteClass::Graphic => is_graphic(b),
        ByteClass::Alphabetic => is_alpha(b),
        ByteClass::KeyChar => is_alnum(b) || b == 0x5Fu8 || b == 0x2Du8 || b == 0x3Au8 || b
            == 0x2Eu8,
        ByteClass::IdChar => is_alnum(b) || b == 0x5Fu8,
        ByteClass::NameChar => is_lower(b) || is_digit(b) || b == 0x5Fu8,
    }
}

/// Every byte of `bytes` belongs to `class`.
pub open spec fn all_in_class(bytes: Seq<u8>, class: ByteClass) -> bool {
    forall|i: int| 0 <= i < bytes.len() ==> #[trigger] in_class(class, bytes[i])
}

pub fn byte_in_class(class: ByteClass, b: u8) -> (r: bool)
    ensures
        r == in_class(class, b),
{
    let alpha = (0x61u8 <= b && b <= 0x7Au8) || (0x41u8 <= b && b <= 0x5Au8);
    let digit = 0x30u8 <= b && b <= 0x39u8;
    match class {
        ByteClass::Graphic => 0x21u8 <= b && b <= 0x7Eu8,
        ByteClass::Alphabetic => alpha,
        ByteClass::KeyChar => alpha || digit || b == 0x5Fu8 || b == 0x2Du8 || b == 0x3Au8 || b
            == 0x2Eu8,
        ByteClass::IdChar => alpha || digit || b == 0x5Fu8,
        ByteClass::NameChar => (0x61u8 <= b && b <= 0x7Au8) || digit || b == 0x5Fu8,
    }
}

/// Whether every byte of `bytes` belongs to `class`.
pub fn bytes_in_class(bytes: &[u8], class: ByteClass) -> (r: bool)
    ensures
        r == all_in_class(bytes@, class),
{
    let mut i: usize = 0;
    while i < bytes.len()
        invariant
            i <= bytes@.len(),
            all_in_class(bytes@.take(i as int), class),
        decreases bytes@.len() - i,
    {
        if !byte_in_class(class, bytes[i]) {
            return false;
        }
        proof {
            assert(bytes@.take(i + 1) =~= bytes@.take(i as int).push(bytes@[i as int]));
        }
        i = i + 1;
    }
    proof {
        assert(bytes@.take(i as int) =~= bytes@);
    }
    true
}

/// Whether `bytes` contains the byte `c`.
pub open spec fn contains_byte(bytes: Seq<u8>, c: u8) -> bool {
    exists|i: int| 0 <= i < bytes.len() && bytes[i] == c
}

/// The position of the last `c` in `bytes`, or `-1` where there is none.
pub open spec fn last_index_of(bytes: Seq<u8>, c: u8) -> int
    decreases bytes.len(),
{
    if bytes.len() == 0 {
        -1
    } else if bytes.last() == c {
        bytes.len() - 1
    } else {
        last_index_of(bytes.drop_last(), c)
    }
}

pub proof fn lemma_last_index_of(bytes: Seq<u8>, c: u8)
    ensures
        -1 <= last_index_of(bytes, c) < bytes.len(),
        last_index_of(bytes, c) >= 0 ==> bytes[last_index_of(bytes, c)] == c,
        forall|k: int| last_index_of(bytes, c) < k < bytes.len() ==> bytes[k] != c,
        (last_index_of(bytes, c) >= 0) == contains_byte(bytes, c),
    decreases bytes.len(),
{
    if bytes.len() > 0 {
        lemma_last_index_of(bytes.drop_last(), c);
        if bytes.last() != c {
            let init = bytes.drop_last();
            assert forall|k: int| last_index_of(bytes, c) < k < bytes.len() implies bytes[k]
                != c by {
                if k < bytes.len() - 1 {
                    assert(init[k] == bytes[k]);
                }
            }
            if contains_byte(bytes, c) {
                let i = choose|i: int| 0 <= i < bytes.len() && bytes[i] == c;
                assert(init[i] == c);
            }
            if contains_byte(init, c) {
                let i = choose|i: int| 0 <= i < init.len() && init[i] == c;
                assert(bytes[i] == c);
            }
        } else {
            assert(bytes[bytes.len() - 1] == c);
        }
    }
}

/// `bytes.iter().rposition(|b| b == c)`, with `-1` for none.
pub fn find_last(bytes: &[u8], c: u8) -> (r: Option<usize>)
    ensures
        match r {
            Some(i) => i as int == last_index_of(bytes@, c),
            None => last_index_of(bytes@, c) == -1,
        },
{
    let mut i: usize = bytes.len();
    proof {
        assert(bytes@.take(bytes@.len() as int) =~= bytes@);
    }
    while i > 0
        invariant
            i <= bytes@.len(),
            last_index_of(bytes@, c) == last_index_of(bytes@.take(i as int), c),
        decreases i,
    {
        let ghost t = bytes@.take(i as int);
        if bytes[i - 1] == c {
            return Some(i - 1);
        }
        proof {
            assert(t.drop_last() =~= bytes@.take(i - 1));
        }
        i = i - 1;
    }
    None
}

/// The decimal digits of `n`, most significant first, as `u64::to_string`
/// writes them.
pub open spec fn decimal_bytes(n: nat) -> Seq<u8>
    decreases n,
{
    if n < 10 {
        seq![(0x30 + n) as u8]
    } else {
        decimal_bytes(n / 10).push((0x30 + n % 10) as u8)
    }
}

pub proof fn lemma_decimal_bytes_ascii(n: nat)
    ensures
        is_ascii_bytes(decimal_bytes(n)),
        forall|i: int| 0 <= i < decimal_bytes(n).len() ==> is_digit(#[trigger] decimal_bytes(n)[i]),
    decreases n,
{
    if n >= 10 {
        lemma_decimal_bytes_ascii(n / 10);
    }
}

/// Appends the decimal digits of `n` to `out`.
pub fn push_decimal(out: &mut Vec<u8>, n: u64)
    ensures
        final(out)@ == old(out)@ + decimal_bytes(n as nat),
    decreases n,
{
    if n < 10 {
        out.push(0x30u8 + n as u8);
        proof {
            assert(decimal_bytes(n as nat) =~= seq![(0x30 + n) as u8]);
        }
    } else {
        push_decimal(out, n / 10);
        out.push(0x30u8 + (n % 10) as u8);
    }
}

/// The decimal text of `n` (`u64::to_string`).
pub fn decimal_string(n: u64) -> (s: String)
    ensures
        s@ == ascii_chars(decimal_bytes(n as nat)),
{
    let mut v: Vec<u8> = Vec::new();
    push_decimal(&mut v, n);
    proof {
        lemma_decimal_bytes_ascii(n as nat);
        assert(v@ =~= decimal_bytes(n as nat));
    }
    crate::outside::ascii_string(v)
}

} // verus!
