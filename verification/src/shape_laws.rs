//! Why a query shape carries no data: the shape lexer only looks forward, so
//! what follows a token never depends on what came before it, and a quoted
//! literal or a non-keyword identifier becomes `?` whatever it holds. Two
//! statements that differ only in one literal's text, or one identifier's
//! name, have the same shape.
use vstd::prelude::*;
use vstd::string::StringSliceAdditionalSpecFns;
use crate::sql_shape::{
    block_comment_scan, bracket_scan, is_quote, is_sql_keyword, is_word_byte, lex_step,
    line_comment_end, number_end, placeholder, quoted_end, shape_bytes, sql_tokens, tokens_from,
    word_end,
};
use crate::text::{is_alpha, is_ws, to_upper};

verus! {

/// The bytes of `b1` from `i1` on are those of `b2` from `i2` on.
pub open spec fn same_rest(b1: Seq<u8>, i1: int, b2: Seq<u8>, i2: int) -> bool {
    &&& 0 <= i1 <= b1.len()
    &&& 0 <= i2 <= b2.len()
    &&& b1.len() - i1 == b2.len() - i2
    &&& forall|k: int| 0 <= k < b1.len() - i1 ==> #[trigger] b1[i1 + k] == b2[i2 + k]
}

proof fn lemma_line_rest(b1: Seq<u8>, i1: int, b2: Seq<u8>, i2: int, k: int)
    requires
        same_rest(b1, i1, b2, i2),
        0 <= k,
    ensures
        line_comment_end(b1, i1 + k) - i1 == line_comment_end(b2, i2 + k) - i2,
    decreases b1.len() - i1 - k,
{
    if i1 + k < b1.len() {
        assert(b1[i1 + k] == b2[i2 + k]);
        lemma_line_rest(b1, i1, b2, i2, k + 1);
    }
}

proof fn lemma_block_rest(b1: Seq<u8>, i1: int, b2: Seq<u8>, i2: int, k: int)
    requires
        same_rest(b1, i1, b2, i2),
        0 <= k,
    ensures
        block_comment_scan(b1, i1 + k) - i1 == block_comment_scan(b2, i2 + k) - i2,
    decreases b1.len() - i1 - k,
{
    if i1 + k + 1 < b1.len() {
        assert(b1[i1 + k] == b2[i2 + k]);
        assert(b1[i1 + (k + 1)] == b2[i2 + (k + 1)]);
        lemma_block_rest(b1, i1, b2, i2, k + 1);
    }
}

proof fn lemma_quoted_rest(b1: Seq<u8>, i1: int, b2: Seq<u8>, i2: int, k: int, q: u8)
    requires
        same_rest(b1, i1, b2, i2),
        0 <= k,
    ensures
        quoted_end(b1, i1 + k, q) - i1 == quoted_end(b2, i2 + k, q) - i2,
    decreases b1.len() - i1 - k,
{
    if i1 + k < b1.len() {
        assert(b1[i1 + k] == b2[i2 + k]);
        if i1 + k + 1 < b1.len() {
            assert(b1[i1 + (k + 1)] == b2[i2 + (k + 1)]);
        }
        if b1[i1 + k] == q {
            if i1 + k + 1 < b1.len() && b1[i1 + k + 1] == q {
                lemma_quoted_rest(b1, i1, b2, i2, k + 2, q);
            }
        } else {
            lemma_quoted_rest(b1, i1, b2, i2, k + 1, q);
        }
    }
}

proof fn lemma_bracket_rest(b1: Seq<u8>, i1: int, b2: Seq<u8>, i2: int, k: int)
    requires
        same_rest(b1, i1, b2, i2),
        0 <= k,
    ensures
        bracket_scan(b1, i1 + k) - i1 == bracket_scan(b2, i2 + k) - i2,
    decreases b1.len() - i1 - k,
{
    if i1 + k < b1.len() {
        assert(b1[i1 + k] == b2[i2 + k]);
        lemma_bracket_rest(b1, i1, b2, i2, k + 1);
    }
}

proof fn lemma_word_rest(b1: Seq<u8>, i1: int, b2: Seq<u8>, i2: int, k: int)
    requires
        same_rest(b1, i1, b2, i2),
        0 <= k,
    ensures
        word_end(b1, i1 + k) - i1 == word_end(b2, i2 + k) - i2,
    decreases b1.len() - i1 - k,
{
    if i1 + k < b1.len() {
        assert(b1[i1 + k] == b2[i2 + k]);
        lemma_word_rest(b1, i1, b2, i2, k + 1);
    }
}

proof fn lemma_number_rest(b1: Seq<u8>, i1: int, b2: Seq<u8>, i2: int, k: int)
    requires
        same_rest(b1, i1, b2, i2),
        0 <= k,
    ensures
        number_end(b1, i1 + k) - i1 == number_end(b2, i2 + k) - i2,
    decreases b1.len() - i1 - k,
{
    if i1 + k < b1.len() {
        assert(b1[i1 + k] == b2[i2 + k]);
        lemma_number_rest(b1, i1, b2, i2, k + 1);
    }
}

/// One lexer step only reads what follows its position.
proof fn lemma_step_rest(b1: Seq<u8>, i1: int, b2: Seq<u8>, i2: int)
    requires
        same_rest(b1, i1, b2, i2),
        i1 < b1.len(),
    ensures
        lex_step(b1, i1).0 - i1 == lex_step(b2, i2).0 - i2,
        lex_step(b1, i1).1 == lex_step(b2, i2).1,
{
    assert(b1[i1 + 0] == b2[i2 + 0]);
    if i1 + 1 < b1.len() {
        assert(b1[i1 + 1] == b2[i2 + 1]);
    }
    lemma_line_rest(b1, i1, b2, i2, 2);
    lemma_block_rest(b1, i1, b2, i2, 2);
    lemma_quoted_rest(b1, i1, b2, i2, 1, b1[i1]);
    lemma_bracket_rest(b1, i1, b2, i2, 1);
    lemma_word_rest(b1, i1, b2, i2, 1);
    lemma_number_rest(b1, i1, b2, i2, 1);
    let j1 = word_end(b1, i1 + 1);
    let j2 = word_end(b2, i2 + 1);
    assert(b1.subrange(i1, j1) =~= b2.subrange(i2, j2)) by {
        lemma_word_end_bounds(b1, i1 + 1);
        assert forall|k: int| 0 <= k < j1 - i1 implies b1.subrange(i1, j1)[k] == b2.subrange(i2, j2)[k] by {
            assert(b1[i1 + k] == b2[i2 + k]);
        }
    }
}

/// The tokens from a position on only depend on the bytes from there on.
proof fn lemma_tokens_rest(b1: Seq<u8>, i1: int, b2: Seq<u8>, i2: int, toks: Seq<Seq<u8>>)
    requires
        same_rest(b1, i1, b2, i2),
    ensures
        tokens_from(b1, i1, toks) == tokens_from(b2, i2, toks),
    decreases b1.len() - i1,
{
    if i1 >= b1.len() || toks.len() >= 96 {
    } else {
        lemma_step_rest(b1, i1, b2, i2);
        let (j1, t1) = lex_step(b1, i1);
        let (j2, t2) = lex_step(b2, i2);
        if j1 <= i1 || j1 > b1.len() {
        } else {
            let next = match t1 {
                Some(x) => toks.push(x),
                None => toks,
            };
            assert forall|k: int| 0 <= k < b1.len() - j1 implies #[trigger] b1[j1 + k] == b2[j2 + k] by {
                assert(b1[i1 + (j1 - i1 + k)] == b2[i2 + (j1 - i1 + k)]);
            }
            lemma_tokens_rest(b1, j1, b2, j2, next);
        }
    }
}

// ---------------------------------------------------------------------------
// Each scanner moves forward and stays within the text.

proof fn lemma_line_bounds(b: Seq<u8>, k: int)
    requires
        0 <= k <= b.len(),
    ensures
        k <= line_comment_end(b, k) <= b.len(),
    decreases b.len() - k,
{
    if k < b.len() && b[k] != 0x0Au8 && b[k] != 0x0Du8 {
        lemma_line_bounds(b, k + 1);
    }
}

proof fn lemma_block_bounds(b: Seq<u8>, k: int)
    requires
        0 <= k,
    ensures
        k <= block_comment_scan(b, k),
    decreases b.len() - k,
{
    if k + 1 < b.len() && !(b[k] == 0x2Au8 && b[k + 1] == 0x2Fu8) {
        lemma_block_bounds(b, k + 1);
    }
}

proof fn lemma_quoted_bounds(b: Seq<u8>, k: int, q: u8)
    requires
        0 <= k <= b.len(),
    ensures
        k <= quoted_end(b, k, q) <= b.len(),
    decreases b.len() - k,
{
    if k < b.len() {
        if b[k] == q {
            if k + 1 < b.len() && b[k + 1] == q {
                lemma_quoted_bounds(b, k + 2, q);
            }
        } else {
            lemma_quoted_bounds(b, k + 1, q);
        }
    }
}

proof fn lemma_bracket_bounds(b: Seq<u8>, k: int)
    requires
        0 <= k,
    ensures
        k <= bracket_scan(b, k),
    decreases b.len() - k,
{
    if k < b.len() && b[k] != 0x5Du8 {
        lemma_bracket_bounds(b, k + 1);
    }
}

proof fn lemma_word_end_bounds(b: Seq<u8>, k: int)
    requires
        0 <= k <= b.len(),
    ensures
        k <= word_end(b, k) <= b.len(),
    decreases b.len() - k,
{
    if k < b.len() && is_word_byte(b[k]) {
        lemma_word_end_bounds(b, k + 1);
    }
}

proof fn lemma_number_bounds(b: Seq<u8>, k: int)
    requires
        0 <= k <= b.len(),
    ensures
        k <= number_end(b, k) <= b.len(),
    decreases b.len() - k,
{
    if k < b.len() && crate::sql_shape::is_number_byte(b[k]) {
        lemma_number_bounds(b, k + 1);
    }
}

/// A lexer step inside the text moves forward and ends within it.
proof fn lemma_scan_bounds(b: Seq<u8>, i: int)
    requires
        0 <= i < b.len(),
    ensures
        i < lex_step(b, i).0 <= b.len(),
{
    if i + 2 <= b.len() {
        lemma_line_bounds(b, i + 2);
        lemma_block_bounds(b, i + 2);
    }
    lemma_quoted_bounds(b, i + 1, b[i]);
    lemma_bracket_bounds(b, i + 1);
    lemma_word_end_bounds(b, i + 1);
    lemma_number_bounds(b, i + 1);
}

// ---------------------------------------------------------------------------
// A prefix that lexes on its own.

proof fn lemma_line_prefix(p: Seq<u8>, z: Seq<u8>, k: int)
    requires
        0 <= k,
        line_comment_end(p, k) < p.len(),
    ensures
        line_comment_end(p + z, k) == line_comment_end(p, k),
    decreases p.len() - k,
{
    if k < p.len() && p[k] != 0x0Au8 && p[k] != 0x0Du8 {
        lemma_line_prefix(p, z, k + 1);
    }
}

proof fn lemma_block_prefix(p: Seq<u8>, z: Seq<u8>, k: int)
    requires
        0 <= k,
        block_comment_scan(p, k) + 1 < p.len(),
    ensures
        block_comment_scan(p + z, k) == block_comment_scan(p, k),
    decreases p.len() - k,
{
    if k + 1 < p.len() && !(p[k] == 0x2Au8 && p[k + 1] == 0x2Fu8) {
        lemma_block_prefix(p, z, k + 1);
    }
}

proof fn lemma_quoted_prefix(p: Seq<u8>, z: Seq<u8>, k: int, q: u8)
    requires
        0 <= k,
        quoted_end(p, k, q) < p.len(),
    ensures
        quoted_end(p + z, k, q) == quoted_end(p, k, q),
    decreases p.len() - k,
{
    if k < p.len() {
        if p[k] == q {
            if k + 1 < p.len() && p[k + 1] == q {
                lemma_quoted_prefix(p, z, k + 2, q);
            }
        } else {
            lemma_quoted_prefix(p, z, k + 1, q);
        }
    }
}

proof fn lemma_bracket_prefix(p: Seq<u8>, z: Seq<u8>, k: int)
    requires
        0 <= k,
        bracket_scan(p, k) < p.len(),
    ensures
        bracket_scan(p + z, k) == bracket_scan(p, k),
    decreases p.len() - k,
{
    if k < p.len() && p[k] != 0x5Du8 {
        lemma_bracket_prefix(p, z, k + 1);
    }
}

proof fn lemma_word_prefix(p: Seq<u8>, z: Seq<u8>, k: int)
    requires
        0 <= k,
        word_end(p, k) < p.len(),
    ensures
        word_end(p + z, k) == word_end(p, k),
    decreases p.len() - k,
{
    if k < p.len() && is_word_byte(p[k]) {
        lemma_word_prefix(p, z, k + 1);
    }
}

proof fn lemma_number_prefix(p: Seq<u8>, z: Seq<u8>, k: int)
    requires
        0 <= k,
        number_end(p, k) < p.len(),
    ensures
        number_end(p + z, k) == number_end(p, k),
    decreases p.len() - k,
{
    if k < p.len() && crate::sql_shape::is_number_byte(p[k]) {
        lemma_number_prefix(p, z, k + 1);
    }
}

/// A lexer step that ends inside the text, or reads one whitespace byte, is
/// the same whatever follows the text.
pub open spec fn closed_step(p: Seq<u8>, i: int) -> bool {
    lex_step(p, i).0 < p.len() || is_ws(p[i])
}

proof fn lemma_step_prefix(p: Seq<u8>, z: Seq<u8>, i: int)
    requires
        0 <= i < p.len(),
        closed_step(p, i),
    ensures
        lex_step(p + z, i) == lex_step(p, i),
{
    let b = p + z;
    let c = p[i];
    let n = p.len() as int;
    assert(b[i] == c);
    if i + 1 < n {
        assert(b[i + 1] == p[i + 1]);
    }
    lemma_scan_bounds(p, i);
    if is_ws(c) {
    } else if c == 0x2Du8 && i + 1 < n && p[i + 1] == 0x2Du8 {
        lemma_line_prefix(p, z, i + 2);
    } else if c == 0x2Fu8 && i + 1 < n && p[i + 1] == 0x2Au8 {
        lemma_block_prefix(p, z, i + 2);
    } else if is_quote(c) {
        lemma_quoted_prefix(p, z, i + 1, c);
    } else if c == 0x5Bu8 {
        lemma_bracket_prefix(p, z, i + 1);
    } else if crate::sql_shape::is_parameter_sigil(c) {
        lemma_word_prefix(p, z, i + 1);
    } else if crate::text::is_digit(c) {
        lemma_number_prefix(p, z, i + 1);
    } else if is_alpha(c) || c == 0x5Fu8 {
        lemma_word_prefix(p, z, i + 1);
        let j = word_end(p, i + 1);
        assert(b.subrange(i, j) =~= p.subrange(i, j));
    }
}

/// Every step of the lexer on `p` from `i` on is closed (see `closed_step`).
pub open spec fn lexes_alone(p: Seq<u8>, i: int) -> bool
    decreases p.len() - i,
{
    if i < 0 || i >= p.len() {
        true
    } else {
        let j = lex_step(p, i).0;
        closed_step(p, i) && i < j && lexes_alone(p, j)
    }
}

/// The tokens the lexer gives for `p` from `i` on, after `toks`.
pub open spec fn prefix_tokens(p: Seq<u8>, i: int, toks: Seq<Seq<u8>>) -> Seq<Seq<u8>>
    decreases p.len() - i,
{
    if i < 0 || i >= p.len() || toks.len() >= 96 {
        toks
    } else {
        let (j, t) = lex_step(p, i);
        if j <= i || j > p.len() {
            toks
        } else {
            prefix_tokens(
                p,
                j,
                match t {
                    Some(x) => toks.push(x),
                    None => toks,
                },
            )
        }
    }
}

proof fn lemma_prefix_tokens(p: Seq<u8>, z: Seq<u8>, i: int, toks: Seq<Seq<u8>>)
    requires
        0 <= i <= p.len(),
        lexes_alone(p, i),
    ensures
        tokens_from(p + z, i, toks) == tokens_from(p + z, p.len() as int, prefix_tokens(p, i, toks)),
        prefix_tokens(p, i, toks).len() >= toks.len(),
    decreases p.len() - i,
{
    if i >= p.len() || toks.len() >= 96 {
    } else {
        lemma_step_prefix(p, z, i);
        lemma_scan_bounds(p, i);
        let (j, t) = lex_step(p, i);
        let next = match t {
            Some(x) => toks.push(x),
            None => toks,
        };
        lemma_prefix_tokens(p, z, j, next);
    }
}

// ---------------------------------------------------------------------------
// The laws.

proof fn lemma_quoted_body(b: Seq<u8>, k: int, m: int, q: u8)
    requires
        0 <= k <= m <= b.len(),
        forall|i: int| k <= i < m ==> #[trigger] b[i] != q,
    ensures
        quoted_end(b, k, q) == quoted_end(b, m, q),
    decreases m - k,
{
    if k < m {
        lemma_quoted_body(b, k + 1, m, q);
    }
}

/// A quoted literal never changes the shape: two statements that agree but for
/// the text between one pair of single quotes (without quotes in it), after a
/// prefix that lexes on its own, have the same shape.
pub proof fn law_literals_never_change_the_shape(p: Seq<u8>, x: Seq<u8>, y: Seq<u8>, q: Seq<u8>)
    requires
        lexes_alone(p, 0),
        forall|k: int| 0 <= k < x.len() ==> #[trigger] x[k] != 0x27u8,
        forall|k: int| 0 <= k < y.len() ==> #[trigger] y[k] != 0x27u8,
    ensures
        shape_bytes(p + seq![0x27u8] + x + seq![0x27u8] + q) == shape_bytes(p + seq![0x27u8] + y
            + seq![0x27u8] + q),
{
    let r1 = seq![0x27u8] + x + seq![0x27u8] + q;
    let r2 = seq![0x27u8] + y + seq![0x27u8] + q;
    let s1 = p + r1;
    let s2 = p + r2;
    assert(s1 =~= p + seq![0x27u8] + x + seq![0x27u8] + q);
    assert(s2 =~= p + seq![0x27u8] + y + seq![0x27u8] + q);
    let a = p.len() as int;
    lemma_prefix_tokens(p, r1, 0, Seq::empty());
    lemma_prefix_tokens(p, r2, 0, Seq::empty());
    let t = prefix_tokens(p, 0, Seq::empty());
    if t.len() < 96 {
        // Both literals close at their second quote, followed by the same rest.
        let c1 = a + 1 + x.len();
        let c2 = a + 1 + y.len();
        assert(s1[a] == 0x27u8 && s2[a] == 0x27u8);
        assert(forall|i: int| a + 1 <= i < c1 ==> s1[i] == x[i - a - 1]);
        assert(forall|i: int| a + 1 <= i < c2 ==> s2[i] == y[i - a - 1]);
        lemma_quoted_body(s1, a + 1, c1, 0x27u8);
        lemma_quoted_body(s2, a + 1, c2, 0x27u8);
        assert forall|k: int| 0 <= k < s1.len() - c1 implies #[trigger] s1[c1 + k] == s2[c2 + k] by {
            if k == 0 {
            } else {
                assert(s1[c1 + k] == q[k - 1]);
                assert(s2[c2 + k] == q[k - 1]);
            }
        }
        lemma_quoted_rest(s1, c1, s2, c2, 0, 0x27u8);
        lemma_quoted_bounds(s1, c1, 0x27u8);
        let j1 = lex_step(s1, a).0;
        let j2 = lex_step(s2, a).0;
        assert(is_quote(s1[a]));
        assert(j1 - c1 == j2 - c2);
        assert(lex_step(s1, a).1 == Some(placeholder()));
        assert(lex_step(s2, a).1 == Some(placeholder()));
        lemma_scan_bounds(s1, a);
        lemma_scan_bounds(s2, a);
        assert forall|k: int| 0 <= k < s1.len() - j1 implies #[trigger] s1[j1 + k] == s2[j2 + k] by {
            assert(s1[c1 + (j1 - c1 + k)] == s2[c2 + (j1 - c1 + k)]);
        }
        lemma_tokens_rest(s1, j1, s2, j2, t.push(placeholder()));
    }
}

/// An identifier never changes the shape: two statements that agree but for
/// one word that is not a kept keyword, after a prefix that lexes on its own
/// and before a rest that does not continue the word, have the same shape.
pub proof fn law_identifiers_never_change_the_shape(p: Seq<u8>, x: Seq<u8>, y: Seq<u8>, q: Seq<u8>)
    requires
        lexes_alone(p, 0),
        x.len() > 0 && (is_alpha(x[0]) || x[0] == 0x5Fu8),
        y.len() > 0 && (is_alpha(y[0]) || y[0] == 0x5Fu8),
        forall|k: int| 0 <= k < x.len() ==> is_word_byte(#[trigger] x[k]),
        forall|k: int| 0 <= k < y.len() ==> is_word_byte(#[trigger] y[k]),
        !is_sql_keyword(x.map_values(|c: u8| to_upper(c))),
        !is_sql_keyword(y.map_values(|c: u8| to_upper(c))),
        q.len() == 0 || !is_word_byte(q[0]),
    ensures
        shape_bytes(p + x + q) == shape_bytes(p + y + q),
{
    let r1 = x + q;
    let r2 = y + q;
    let s1 = p + r1;
    let s2 = p + r2;
    assert(s1 =~= p + x + q);
    assert(s2 =~= p + y + q);
    let a = p.len() as int;
    lemma_prefix_tokens(p, r1, 0, Seq::empty());
    lemma_prefix_tokens(p, r2, 0, Seq::empty());
    let t = prefix_tokens(p, 0, Seq::empty());
    if t.len() < 96 {
        let e1 = a + x.len();
        let e2 = a + y.len();
        assert(s1[a] == x[0] && s2[a] == y[0]);
        lemma_word_span(s1, a + 1, e1);
        lemma_word_span(s2, a + 1, e2);
        assert(s1.subrange(a, e1) =~= x);
        assert(s2.subrange(a, e2) =~= y);
        assert(lex_step(s1, a) == (e1, Some(placeholder())));
        assert(lex_step(s2, a) == (e2, Some(placeholder())));
        assert forall|k: int| 0 <= k < s1.len() - e1 implies #[trigger] s1[e1 + k] == s2[e2 + k] by {
            assert(s1[e1 + k] == q[k]);
            assert(s2[e2 + k] == q[k]);
        }
        lemma_tokens_rest(s1, e1, s2, e2, t.push(placeholder()));
    }
}

proof fn lemma_word_span(b: Seq<u8>, k: int, e: int)
    requires
        0 <= k <= e <= b.len(),
        forall|i: int| k <= i < e ==> is_word_byte(#[trigger] b[i]),
        e == b.len() || !is_word_byte(b[e]),
    ensures
        word_end(b, k) == e,
    decreases e - k,
{
    if k < e {
        lemma_word_span(b, k + 1, e);
    }
}

// ---------------------------------------------------------------------------
// Which words a shape keeps.

/// The SQL keywords that the service documents as kept in a query shape,
/// upper case.
pub open spec fn documented_sql_keyword(w: Seq<u8>) -> bool {
    ||| w == "ABORT".spec_bytes()
    ||| w == "ACTION".spec_bytes()
    ||| w == "ADD".spec_bytes()
    ||| w == "AFTER".spec_bytes()
    ||| w == "ALL".spec_bytes()
    ||| w == "ALTER".spec_bytes()
    ||| w == "ANALYZE".spec_bytes()
    ||| w == "AND".spec_bytes()
    ||| w == "AS".spec_bytes()
    ||| w == "ASC".spec_bytes()
    ||| w == "ATTACH".spec_bytes()
    ||| w == "BEFORE".spec_bytes()
    ||| w == "BEGIN".spec_bytes()
    ||| w == "BETWEEN".spec_bytes()
    ||| w == "BY".spec_bytes()
    ||| w == "CASCADE".spec_bytes()
    ||| w == "CASE".spec_bytes()
    ||| w == "CAST".spec_bytes()
    ||| w == "CHECK".spec_bytes()
    ||| w == "COLLATE".spec_bytes()
    ||| w == "COLUMN".spec_bytes()
    ||| w == "COMMIT".spec_bytes()
    ||| w == "CONFLICT".spec_bytes()
    ||| w == "CONSTRAINT".spec_bytes()
    ||| w == "CREATE".spec_bytes()
    ||| w == "CROSS".spec_bytes()
    ||| w == "CURRENT".spec_bytes()
    ||| w == "DEFAULT".spec_bytes()
    ||| w == "DELETE".spec_bytes()
    ||| w == "DESC".spec_bytes()
    ||| w == "DETACH".spec_bytes()
    ||| w == "DISTINCT".spec_bytes()
    ||| w == "DO".spec_bytes()
    ||| w == "DROP".spec_bytes()
    ||| w == "EACH".spec_bytes()
    ||| w == "ELSE".spec_bytes()
    ||| w == "END".spec_bytes()
    ||| w == "ESCAPE".spec_bytes()
    ||| w == "EXCEPT".spec_bytes()
    ||| w == "EXCLUDE".spec_bytes()
    ||| w == "EXISTS".spec_bytes()
    ||| w == "EXPLAIN".spec_bytes()
    ||| w == "FAIL".spec_bytes()
    ||| w == "FILTER".spec_bytes()
    ||| w == "FOLLOWING".spec_bytes()
    ||| w == "FOR".spec_bytes()
    ||| w == "FOREIGN".spec_bytes()
    ||| w == "FROM".spec_bytes()
    ||| w == "FULL".spec_bytes()
    ||| w == "GENERATED".spec_bytes()
    ||| w == "GLOB".spec_bytes()
    ||| w == "GROUP".spec_bytes()
    ||| w == "HAVING".spec_bytes()
    ||| w == "IF".spec_bytes()
    ||| w == "IGNORE".spec_bytes()
    ||| w == "IN".spec_bytes()
    ||| w == "INDEX".spec_bytes()
    ||| w == "INDEXED".spec_bytes()
    ||| w == "INITIALLY".spec_bytes()
    ||| w == "INNER".spec_bytes()
    ||| w == "INSERT".spec_bytes()
    ||| w == "INSTEAD".spec_bytes()
    ||| w == "INTERSECT".spec_bytes()
    ||| w == "INTO".spec_bytes()
    ||| w == "IS".spec_bytes()
    ||| w == "JOIN".spec_bytes()
    ||| w == "KEY".spec_bytes()
    ||| w == "LEFT".spec_bytes()
    ||| w == "LIKE".spec_bytes()
    ||| w == "LIMIT".spec_bytes()
    ||| w == "MATCH".spec_bytes()
    ||| w == "MATERIALIZED".spec_bytes()
    ||| w == "NATURAL".spec_bytes()
    ||| w == "NO".spec_bytes()
    ||| w == "NOT".spec_bytes()
    ||| w == "NOTHING".spec_bytes()
    ||| w == "NULL".spec_bytes()
    ||| w == "NULLS".spec_bytes()
    ||| w == "OF".spec_bytes()
    ||| w == "OFFSET".spec_bytes()
    ||| w == "ON".spec_bytes()
    ||| w == "OR".spec_bytes()
    ||| w == "ORDER".spec_bytes()
    ||| w == "OTHERS".spec_bytes()
    ||| w == "OUTER".spec_bytes()
    ||| w == "OVER".spec_bytes()
    ||| w == "PARTITION".spec_bytes()
    ||| w == "PLAN".spec_bytes()
    ||| w == "PRAGMA".spec_bytes()
    ||| w == "PRECEDING".spec_bytes()
    ||| w == "PRIMARY".spec_bytes()
    ||| w == "QUERY".spec_bytes()
    ||| w == "RAISE".spec_bytes()
    ||| w == "RANGE".spec_bytes()
    ||| w == "RECURSIVE".spec_bytes()
    ||| w == "REFERENCES".spec_bytes()
    ||| w == "REGEXP".spec_bytes()
    ||| w == "REINDEX".spec_bytes()
    ||| w == "RELEASE".spec_bytes()
    ||| w == "RENAME".spec_bytes()
    ||| w == "REPLACE".spec_bytes()
    ||| w == "RESTRICT".spec_bytes()
    ||| w == "RETURNING".spec_bytes()
    ||| w == "RIGHT".spec_bytes()
    ||| w == "ROLLBACK".spec_bytes()
    ||| w == "ROW".spec_bytes()
    ||| w == "ROWS".spec_bytes()
    ||| w == "SAVEPOINT".spec_bytes()
    ||| w == "SELECT".spec_bytes()
    ||| w == "SET".spec_bytes()
    ||| w == "TABLE".spec_bytes()
    ||| w == "TEMP".spec_bytes()
    ||| w == "TEMPORARY".spec_bytes()
    ||| w == "THEN".spec_bytes()
    ||| w == "TIES".spec_bytes()
    ||| w == "TO".spec_bytes()
    ||| w == "TRANSACTION".spec_bytes()
    ||| w == "TRIGGER".spec_bytes()
    ||| w == "UNBOUNDED".spec_bytes()
    ||| w == "UNION".spec_bytes()
    ||| w == "UNIQUE".spec_bytes()
    ||| w == "UPDATE".spec_bytes()
    ||| w == "USING".spec_bytes()
    ||| w == "VACUUM".spec_bytes()
    ||| w == "VALUES".spec_bytes()
    ||| w == "VIEW".spec_bytes()
    ||| w == "VIRTUAL".spec_bytes()
    ||| w == "WHEN".spec_bytes()
    ||| w == "WHERE".spec_bytes()
    ||| w == "WINDOW".spec_bytes()
    ||| w == "WITH".spec_bytes()
    ||| w == "WITHOUT".spec_bytes()
}

/// A shape keeps exactly the documented keywords: a word is kept as a
/// keyword if and only if its upper-case form is on the documented list.
pub proof fn law_shapes_keep_exactly_the_documented_keywords(w: Seq<u8>)
    ensures
        is_sql_keyword(w) <==> documented_sql_keyword(w),
{
    reveal(is_sql_keyword);
}

/// The lexer never drops or rewrites the tokens it has already produced.
proof fn lemma_tokens_from_extends(b: Seq<u8>, i: int, toks: Seq<Seq<u8>>)
    ensures
        tokens_from(b, i, toks).len() >= toks.len(),
        forall|k: int| 0 <= k < toks.len() ==> #[trigger] tokens_from(b, i, toks)[k] == toks[k],
    decreases b.len() - i,
{
    if i < 0 || i >= b.len() || toks.len() >= 96 {
    } else {
        let (j, t) = lex_step(b, i);
        if j <= i || j > b.len() {
        } else {
            let next = match t {
                Some(x) => toks.push(x),
                None => toks,
            };
            lemma_tokens_from_extends(b, j, next);
            assert forall|k: int| 0 <= k < toks.len() implies #[trigger] tokens_from(b, i, toks)[k]
                == toks[k] by {
                assert(next[k] == toks[k]);
            }
        }
    }
}

/// A word at the start of a statement, whatever follows it, becomes its
/// upper-case form in the shape when that form is a documented keyword
/// (in any letter case: `order` is kept as `ORDER`), and `?` otherwise.
pub proof fn law_leading_words_are_kept_only_as_documented_keywords(x: Seq<u8>, q: Seq<u8>)
    requires
        x.len() > 0 && (is_alpha(x[0]) || x[0] == 0x5Fu8),
        forall|k: int| 0 <= k < x.len() ==> is_word_byte(#[trigger] x[k]),
        q.len() == 0 || !is_word_byte(q[0]),
    ensures
        sql_tokens(x + q).len() >= 1,
        sql_tokens(x + q)[0] == (if documented_sql_keyword(x.map_values(|c: u8| to_upper(c))) {
            x.map_values(|c: u8| to_upper(c))
        } else {
            placeholder()
        }),
{
    let s = x + q;
    let e = x.len() as int;
    assert(s[0] == x[0]);
    lemma_word_span(s, 1, e);
    assert(s.subrange(0, e) =~= x);
    let up = x.map_values(|c: u8| to_upper(c));
    law_shapes_keep_exactly_the_documented_keywords(up);
    let tok = if is_sql_keyword(up) { up } else { placeholder() };
    assert(lex_step(s, 0) == (e, Some(tok)));
    assert(sql_tokens(s) == tokens_from(s, e, seq![tok]));
    lemma_tokens_from_extends(s, e, seq![tok]);
}

} // verus!
