//! Query shapes: SQL text with every identifier, literal, parameter and
//! comment removed, so that statements that differ only in values group
//! together and no customer data reaches the observability store.
use vstd::prelude::*;
use vstd::string::StringSliceAdditionalSpecFns;
use crate::text::{append_bytes, ascii_chars, byte_is_alnum, byte_is_alpha, byte_is_digit,
    byte_is_ws, byte_to_upper, is_alnum, is_alpha, is_ascii_bytes, is_digit, is_ws, range_eq,
    to_upper};

verus! {

/// The SQL keywords that a shape keeps (upper case); every other word becomes `?`.
#[verifier::opaque]
pub open spec fn is_sql_keyword(w: Seq<u8>) -> bool {
    w == "ABORT".spec_bytes() ||
    w == "ACTION".spec_bytes() ||
    w == "ADD".spec_bytes() ||
    w == "AFTER".spec_bytes() ||
    w == "ALL".spec_bytes() ||
    w == "ALTER".spec_bytes() ||
    w == "ANALYZE".spec_bytes() ||
    w == "AND".spec_bytes() ||
    w == "AS".spec_bytes() ||
    w == "ASC".spec_bytes() ||
    w == "ATTACH".spec_bytes() ||
    w == "BEFORE".spec_bytes() ||
    w == "BEGIN".spec_bytes() ||
    w == "BETWEEN".spec_bytes() ||
    w == "BY".spec_bytes() ||
    w == "CASCADE".spec_bytes() ||
    w == "CASE".spec_bytes() ||
    w == "CAST".spec_bytes() ||
    w == "CHECK".spec_bytes() ||
    w == "COLLATE".spec_bytes() ||
    w == "COLUMN".spec_bytes() ||
    w == "COMMIT".spec_bytes() ||
    w == "CONFLICT".spec_bytes() ||
    w == "CONSTRAINT".spec_bytes() ||
    w == "CREATE".spec_bytes() ||
    w == "CROSS".spec_bytes() ||
    w == "CURRENT".spec_bytes() ||
    w == "DEFAULT".spec_bytes() ||
    w == "DELETE".spec_bytes() ||
    w == "DESC".spec_bytes() ||
    w == "DETACH".spec_bytes() ||
    w == "DISTINCT".spec_bytes() ||
    w == "DO".spec_bytes() ||
    w == "DROP".spec_bytes() ||
    w == "EACH".spec_bytes() ||
    w == "ELSE".spec_bytes() ||
    w == "END".spec_bytes() ||
    w == "ESCAPE".spec_bytes() ||
    w == "EXCEPT".spec_bytes() ||
    w == "EXCLUDE".spec_bytes() ||
    w == "EXISTS".spec_bytes() ||
    w == "EXPLAIN".spec_bytes() ||
    w == "FAIL".spec_bytes() ||
    w == "FILTER".spec_bytes() ||
    w == "FOLLOWING".spec_bytes() ||
    w == "FOR".spec_bytes() ||
    w == "FOREIGN".spec_bytes() ||
    w == "FROM".spec_bytes() ||
    w == "FULL".spec_bytes() ||
    w == "GENERATED".spec_bytes() ||
    w == "GLOB".spec_bytes() ||
    w == "GROUP".spec_bytes() ||
    w == "HAVING".spec_bytes() ||
    w == "IF".spec_bytes() ||
    w == "IGNORE".spec_bytes() ||
    w == "IN".spec_bytes() ||
    w == "INDEX".spec_bytes() ||
    w == "INDEXED".spec_bytes() ||
    w == "INITIALLY".spec_bytes() ||
    w == "INNER".spec_bytes() ||
    w == "INSERT".spec_bytes() ||
    w == "INSTEAD".spec_bytes() ||
    w == "INTERSECT".spec_bytes() ||
    w == "INTO".spec_bytes() ||
    w == "IS".spec_bytes() ||
    w == "JOIN".spec_bytes() ||
    w == "KEY".spec_bytes() ||
    w == "LEFT".spec_bytes() ||
    w == "LIKE".spec_bytes() ||
    w == "LIMIT".spec_bytes() ||
    w == "MATCH".spec_bytes() ||
    w == "MATERIALIZED".spec_bytes() ||
    w == "NATURAL".spec_bytes() ||
    w == "NO".spec_bytes() ||
    w == "NOT".spec_bytes() ||
    w == "NOTHING".spec_bytes() ||
    w == "NULL".spec_bytes() ||
    w == "NULLS".spec_bytes() ||
    w == "OF".spec_bytes() ||
    w == "OFFSET".spec_bytes() ||
    w == "ON".spec_bytes() ||
    w == "OR".spec_bytes() ||
    w == "ORDER".spec_bytes() ||
    w == "OTHERS".spec_bytes() ||
    w == "OUTER".spec_bytes() ||
    w == "OVER".spec_bytes() ||
    w == "PARTITION".spec_bytes() ||
    w == "PLAN".spec_bytes() ||
    w == "PRAGMA".spec_bytes() ||
    w == "PRECEDING".spec_bytes() ||
    w == "PRIMARY".spec_bytes() ||
    w == "QUERY".spec_bytes() ||
    w == "RAISE".spec_bytes() ||
    w == "RANGE".spec_bytes() ||
    w == "RECURSIVE".spec_bytes() ||
    w == "REFERENCES".spec_bytes() ||
    w == "REGEXP".spec_bytes() ||
    w == "REINDEX".spec_bytes() ||
    w == "RELEASE".spec_bytes() ||
    w == "RENAME".spec_bytes() ||
    w == "REPLACE".spec_bytes() ||
    w == "RESTRICT".spec_bytes() ||
    w == "RETURNING".spec_bytes() ||
    w == "RIGHT".spec_bytes() ||
    w == "ROLLBACK".spec_bytes() ||
    w == "ROW".spec_bytes() ||
    w == "ROWS".spec_bytes() ||
    w == "SAVEPOINT".spec_bytes() ||
    w == "SELECT".spec_bytes() ||
    w == "SET".spec_bytes() ||
    w == "TABLE".spec_bytes() ||
    w == "TEMP".spec_bytes() ||
    w == "TEMPORARY".spec_bytes() ||
    w == "THEN".spec_bytes() ||
    w == "TIES".spec_bytes() ||
    w == "TO".spec_bytes() ||
    w == "TRANSACTION".spec_bytes() ||
    w == "TRIGGER".spec_bytes() ||
    w == "UNBOUNDED".spec_bytes() ||
    w == "UNION".spec_bytes() ||
    w == "UNIQUE".spec_bytes() ||
    w == "UPDATE".spec_bytes() ||
    w == "USING".spec_bytes() ||
    w == "VACUUM".spec_bytes() ||
    w == "VALUES".spec_bytes() ||
    w == "VIEW".spec_bytes() ||
    w == "VIRTUAL".spec_bytes() ||
    w == "WHEN".spec_bytes() ||
    w == "WHERE".spec_bytes() ||
    w == "WINDOW".spec_bytes() ||
    w == "WITH".spec_bytes() ||
    w == "WITHOUT".spec_bytes()
}

/// Whether `w` (already upper-cased) is one of the kept SQL keywords.
fn keyword_lookup(w: &[u8]) -> (r: bool)
    ensures
        r == is_sql_keyword(w@),
{
    let n = w.len();
    proof {
        assert(w@.subrange(0, n as int) =~= w@);
        reveal(is_sql_keyword);
    }
    range_eq(w, 0, n, "ABORT".as_bytes()) ||
    range_eq(w, 0, n, "ACTION".as_bytes()) ||
    range_eq(w, 0, n, "ADD".as_bytes()) ||
    range_eq(w, 0, n, "AFTER".as_bytes()) ||
    range_eq(w, 0, n, "ALL".as_bytes()) ||
    range_eq(w, 0, n, "ALTER".as_bytes()) ||
    range_eq(w, 0, n, "ANALYZE".as_bytes()) ||
    range_eq(w, 0, n, "AND".as_bytes()) ||
    range_eq(w, 0, n, "AS".as_bytes()) ||
    range_eq(w, 0, n, "ASC".as_bytes()) ||
    range_eq(w, 0, n, "ATTACH".as_bytes()) ||
    range_eq(w, 0, n, "BEFORE".as_bytes()) ||
    range_eq(w, 0, n, "BEGIN".as_bytes()) ||
    range_eq(w, 0, n, "BETWEEN".as_bytes()) ||
    range_eq(w, 0, n, "BY".as_bytes()) ||
    range_eq(w, 0, n, "CASCADE".as_bytes()) ||
    range_eq(w, 0, n, "CASE".as_bytes()) ||
    range_eq(w, 0, n, "CAST".as_bytes()) ||
    range_eq(w, 0, n, "CHECK".as_bytes()) ||
    range_eq(w, 0, n, "COLLATE".as_bytes()) ||
    range_eq(w, 0, n, "COLUMN".as_bytes()) ||
    range_eq(w, 0, n, "COMMIT".as_bytes()) ||
    range_eq(w, 0, n, "CONFLICT".as_bytes()) ||
    range_eq(w, 0, n, "CONSTRAINT".as_bytes()) ||
    range_eq(w, 0, n, "CREATE".as_bytes()) ||
    range_eq(w, 0, n, "CROSS".as_bytes()) ||
    range_eq(w, 0, n, "CURRENT".as_bytes()) ||
    range_eq(w, 0, n, "DEFAULT".as_bytes()) ||
    range_eq(w, 0, n, "DELETE".as_bytes()) ||
    range_eq(w, 0, n, "DESC".as_bytes()) ||
    range_eq(w, 0, n, "DETACH".as_bytes()) ||
    range_eq(w, 0, n, "DISTINCT".as_bytes()) ||
    range_eq(w, 0, n, "DO".as_bytes()) ||
    range_eq(w, 0, n, "DROP".as_bytes()) ||
    range_eq(w, 0, n, "EACH".as_bytes()) ||
    range_eq(w, 0, n, "ELSE".as_bytes()) ||
    range_eq(w, 0, n, "END".as_bytes()) ||
    range_eq(w, 0, n, "ESCAPE".as_bytes()) ||
    range_eq(w, 0, n, "EXCEPT".as_bytes()) ||
    range_eq(w, 0, n, "EXCLUDE".as_bytes()) ||
    range_eq(w, 0, n, "EXISTS".as_bytes()) ||
    range_eq(w, 0, n, "EXPLAIN".as_bytes()) ||
    range_eq(w, 0, n, "FAIL".as_bytes()) ||
    range_eq(w, 0, n, "FILTER".as_bytes()) ||
    range_eq(w, 0, n, "FOLLOWING".as_bytes()) ||
    range_eq(w, 0, n, "FOR".as_bytes()) ||
    range_eq(w, 0, n, "FOREIGN".as_bytes()) ||
    range_eq(w, 0, n, "FROM".as_bytes()) ||
    range_eq(w, 0, n, "FULL".as_bytes()) ||
    range_eq(w, 0, n, "GENERATED".as_bytes()) ||
    range_eq(w, 0, n, "GLOB".as_bytes()) ||
    range_eq(w, 0, n, "GROUP".as_bytes()) ||
    range_eq(w, 0, n, "HAVING".as_bytes()) ||
    range_eq(w, 0, n, "IF".as_bytes()) ||
    range_eq(w, 0, n, "IGNORE".as_bytes()) ||
    range_eq(w, 0, n, "IN".as_bytes()) ||
    range_eq(w, 0, n, "INDEX".as_bytes()) ||
    range_eq(w, 0, n, "INDEXED".as_bytes()) ||
    range_eq(w, 0, n, "INITIALLY".as_bytes()) ||
    range_eq(w, 0, n, "INNER".as_bytes()) ||
    range_eq(w, 0, n, "INSERT".as_bytes()) ||
    range_eq(w, 0, n, "INSTEAD".as_bytes()) ||
    range_eq(w, 0, n, "INTERSECT".as_bytes()) ||
    range_eq(w, 0, n, "INTO".as_bytes()) ||
    range_eq(w, 0, n, "IS".as_bytes()) ||
    range_eq(w, 0, n, "JOIN".as_bytes()) ||
    range_eq(w, 0, n, "KEY".as_bytes()) ||
    range_eq(w, 0, n, "LEFT".as_bytes()) ||
    range_eq(w, 0, n, "LIKE".as_bytes()) ||
    range_eq(w, 0, n, "LIMIT".as_bytes()) ||
    range_eq(w, 0, n, "MATCH".as_bytes()) ||
    range_eq(w, 0, n, "MATERIALIZED".as_bytes()) ||
    range_eq(w, 0, n, "NATURAL".as_bytes()) ||
    range_eq(w, 0, n, "NO".as_bytes()) ||
    range_eq(w, 0, n, "NOT".as_bytes()) ||
    range_eq(w, 0, n, "NOTHING".as_bytes()) ||
    range_eq(w, 0, n, "NULL".as_bytes()) ||
    range_eq(w, 0, n, "NULLS".as_bytes()) ||
    range_eq(w, 0, n, "OF".as_bytes()) ||
    range_eq(w, 0, n, "OFFSET".as_bytes()) ||
    range_eq(w, 0, n, "ON".as_bytes()) ||
    range_eq(w, 0, n, "OR".as_bytes()) ||
    range_eq(w, 0, n, "ORDER".as_bytes()) ||
    range_eq(w, 0, n, "OTHERS".as_bytes()) ||
    range_eq(w, 0, n, "OUTER".as_bytes()) ||
    range_eq(w, 0, n, "OVER".as_bytes()) ||
    range_eq(w, 0, n, "PARTITION".as_bytes()) ||
    range_eq(w, 0, n, "PLAN".as_bytes()) ||
    range_eq(w, 0, n, "PRAGMA".as_bytes()) ||
    range_eq(w, 0, n, "PRECEDING".as_bytes()) ||
    range_eq(w, 0, n, "PRIMARY".as_bytes()) ||
    range_eq(w, 0, n, "QUERY".as_bytes()) ||
    range_eq(w, 0, n, "RAISE".as_bytes()) ||
    range_eq(w, 0, n, "RANGE".as_bytes()) ||
    range_eq(w, 0, n, "RECURSIVE".as_bytes()) ||
    range_eq(w, 0, n, "REFERENCES".as_bytes()) ||
    range_eq(w, 0, n, "REGEXP".as_bytes()) ||
    range_eq(w, 0, n, "REINDEX".as_bytes()) ||
    range_eq(w, 0, n, "RELEASE".as_bytes()) ||
    range_eq(w, 0, n, "RENAME".as_bytes()) ||
    range_eq(w, 0, n, "REPLACE".as_bytes()) ||
    range_eq(w, 0, n, "RESTRICT".as_bytes()) ||
    range_eq(w, 0, n, "RETURNING".as_bytes()) ||
    range_eq(w, 0, n, "RIGHT".as_bytes()) ||
    range_eq(w, 0, n, "ROLLBACK".as_bytes()) ||
    range_eq(w, 0, n, "ROW".as_bytes()) ||
    range_eq(w, 0, n, "ROWS".as_bytes()) ||
    range_eq(w, 0, n, "SAVEPOINT".as_bytes()) ||
    range_eq(w, 0, n, "SELECT".as_bytes()) ||
    range_eq(w, 0, n, "SET".as_bytes()) ||
    range_eq(w, 0, n, "TABLE".as_bytes()) ||
    range_eq(w, 0, n, "TEMP".as_bytes()) ||
    range_eq(w, 0, n, "TEMPORARY".as_bytes()) ||
    range_eq(w, 0, n, "THEN".as_bytes()) ||
    range_eq(w, 0, n, "TIES".as_bytes()) ||
    range_eq(w, 0, n, "TO".as_bytes()) ||
    range_eq(w, 0, n, "TRANSACTION".as_bytes()) ||
    range_eq(w, 0, n, "TRIGGER".as_bytes()) ||
    range_eq(w, 0, n, "UNBOUNDED".as_bytes()) ||
    range_eq(w, 0, n, "UNION".as_bytes()) ||
    range_eq(w, 0, n, "UNIQUE".as_bytes()) ||
    range_eq(w, 0, n, "UPDATE".as_bytes()) ||
    range_eq(w, 0, n, "USING".as_bytes()) ||
    range_eq(w, 0, n, "VACUUM".as_bytes()) ||
    range_eq(w, 0, n, "VALUES".as_bytes()) ||
    range_eq(w, 0, n, "VIEW".as_bytes()) ||
    range_eq(w, 0, n, "VIRTUAL".as_bytes()) ||
    range_eq(w, 0, n, "WHEN".as_bytes()) ||
    range_eq(w, 0, n, "WHERE".as_bytes()) ||
    range_eq(w, 0, n, "WINDOW".as_bytes()) ||
    range_eq(w, 0, n, "WITH".as_bytes()) ||
    range_eq(w, 0, n, "WITHOUT".as_bytes())
}

/// The placeholder that stands for any redacted token.
pub open spec fn placeholder() -> Seq<u8> {
    seq![0x3Fu8]
}

pub open spec fn is_word_byte(b: u8) -> bool {
    is_alnum(b) || b == 0x5Fu8
}

pub open spec fn is_number_byte(b: u8) -> bool {
    is_alnum(b) || b == 0x2Eu8 || b == 0x5Fu8 || b == 0x2Bu8 || b == 0x2Du8
}

pub open spec fn is_punctuation(b: u8) -> bool {
    b == 0x28u8 || b == 0x29u8 || b == 0x2Cu8 || b == 0x3Bu8 || b == 0x2Eu8
}

pub open spec fn is_operator(b: u8) -> bool {
    b == 0x3Du8 || b == 0x3Cu8 || b == 0x3Eu8 || b == 0x2Bu8 || b == 0x2Du8 || b == 0x2Au8 || b
        == 0x2Fu8 || b == 0x25u8 || b == 0x7Cu8
}

pub open spec fn is_operator_suffix(b: u8) -> bool {
    b == 0x3Du8 || b == 0x3Eu8 || b == 0x3Cu8 || b == 0x7Cu8
}

pub open spec fn is_parameter_sigil(b: u8) -> bool {
    b == 0x3Fu8 || b == 0x3Au8 || b == 0x40u8 || b == 0x24u8
}

pub open spec fn is_quote(b: u8) -> bool {
    b == 0x27u8 || b == 0x22u8 || b == 0x60u8
}

/// End of a `--` comment begun before `k`: the next line break or the end.
pub open spec fn line_comment_end(b: Seq<u8>, k: int) -> int
    decreases b.len() - k,
{
    if k >= b.len() || b[k] == 0x0Au8 || b[k] == 0x0Du8 {
        k
    } else {
        line_comment_end(b, k + 1)
    }
}

/// Position of the `*/` that closes a block comment, or the last byte.
pub open spec fn block_comment_scan(b: Seq<u8>, k: int) -> int
    decreases b.len() - k,
{
    if k + 1 >= b.len() || (b[k] == 0x2Au8 && b[k + 1] == 0x2Fu8) {
        k
    } else {
        block_comment_scan(b, k + 1)
    }
}

/// End of a quoted literal or identifier whose body starts at `k`; a doubled
/// quote is an escaped quote.
pub open spec fn quoted_end(b: Seq<u8>, k: int, q: u8) -> int
    decreases b.len() - k,
{
    if k >= b.len() {
        k
    } else if b[k] == q {
        if k + 1 < b.len() && b[k + 1] == q {
            quoted_end(b, k + 2, q)
        } else {
            k + 1
        }
    } else {
        quoted_end(b, k + 1, q)
    }
}

/// Position of the `]` that closes a bracketed identifier, or the end.
pub open spec fn bracket_scan(b: Seq<u8>, k: int) -> int
    decreases b.len() - k,
{
    if k >= b.len() || b[k] == 0x5Du8 {
        k
    } else {
        bracket_scan(b, k + 1)
    }
}

pub open spec fn word_end(b: Seq<u8>, k: int) -> int
    decreases b.len() - k,
{
    if k < b.len() && is_word_byte(b[k]) {
        word_end(b, k + 1)
    } else {
        k
    }
}

pub open spec fn number_end(b: Seq<u8>, k: int) -> int
    decreases b.len() - k,
{
    if k < b.len() && is_number_byte(b[k]) {
        number_end(b, k + 1)
    } else {
        k
    }
}

pub open spec fn min_int(a: int, b: int) -> int {
    if a <= b {
        a
    } else {
        b
    }
}

/// One step of the shape lexer at byte `i`: where the next step starts, and
/// the token that this step contributes, if any. Whitespace and comments give
/// no token; quoted text, bracketed identifiers, parameters, numbers and
/// non-keyword words give `?`; keywords give themselves in upper case;
/// punctuation and (one- or two-byte) operators give themselves; any other
/// byte gives `?`.
pub open spec fn lex_step(b: Seq<u8>, i: int) -> (int, Option<Seq<u8>>) {
    let c = b[i];
    let n = b.len() as int;
    if is_ws(c) {
        (i + 1, None)
    } else if c == 0x2Du8 && i + 1 < n && b[i + 1] == 0x2Du8 {
        (line_comment_end(b, i + 2), None)
    } else if c == 0x2Fu8 && i + 1 < n && b[i + 1] == 0x2Au8 {
        (min_int(block_comment_scan(b, i + 2) + 2, n), None)
    } else if is_quote(c) {
        (quoted_end(b, i + 1, c), Some(placeholder()))
    } else if c == 0x5Bu8 {
        (min_int(bracket_scan(b, i + 1) + 1, n), Some(placeholder()))
    } else if is_parameter_sigil(c) {
        (word_end(b, i + 1), Some(placeholder()))
    } else if is_digit(c) {
        (number_end(b, i + 1), Some(placeholder()))
    } else if is_alpha(c) || c == 0x5Fu8 {
        let j = word_end(b, i + 1);
        let w = b.subrange(i, j).map_values(|x: u8| to_upper(x));
        (j, Some(if is_sql_keyword(w) { w } else { placeholder() }))
    } else if is_punctuation(c) {
        (i + 1, Some(seq![c]))
    } else if is_operator(c) {
        if i + 1 < n && is_operator_suffix(b[i + 1]) {
            (i + 2, Some(seq![c, b[i + 1]]))
        } else {
            (i + 1, Some(seq![c]))
        }
    } else {
        (i + 1, Some(placeholder()))
    }
}

/// The tokens that the lexer produces from byte `i` on, after `toks`; the
/// lexer stops after 96 tokens.
pub open spec fn tokens_from(b: Seq<u8>, i: int, toks: Seq<Seq<u8>>) -> Seq<Seq<u8>>
    decreases b.len() - i,
{
    if i < 0 || i >= b.len() || toks.len() >= 96 {
        toks
    } else {
        let (j, t) = lex_step(b, i);
        if j <= i || j > b.len() {
            toks
        } else {
            tokens_from(
                b,
                j,
                match t {
                    Some(x) => toks.push(x),
                    None => toks,
                },
            )
        }
    }
}

pub open spec fn sql_tokens(b: Seq<u8>) -> Seq<Seq<u8>> {
    tokens_from(b, 0, Seq::empty())
}

/// The tokens written one after another, separated by single spaces.
pub open spec fn join_tokens(t: Seq<Seq<u8>>) -> Seq<u8>
    decreases t.len(),
{
    if t.len() == 0 {
        Seq::empty()
    } else if t.len() == 1 {
        t[0]
    } else {
        join_tokens(t.drop_last()) + seq![0x20u8] + t.last()
    }
}

/// `UNKNOWN`, the shape of a statement that yields no token.
pub open spec fn unknown_shape() -> Seq<u8> {
    seq![0x55u8, 0x4Eu8, 0x4Bu8, 0x4Eu8, 0x4Fu8, 0x57u8, 0x4Eu8]
}

/// The bytes of the shape of a SQL text: its tokens joined by spaces (or
/// `UNKNOWN` when there are none), cut to at most 320 bytes.
pub open spec fn shape_bytes(sql: Seq<u8>) -> Seq<u8> {
    let joined = join_tokens(sql_tokens(sql));
    let s = if joined.len() == 0 { unknown_shape() } else { joined };
    if s.len() > 320 {
        s.take(320)
    } else {
        s
    }
}

pub open spec fn tok_view(t: Seq<Vec<u8>>) -> Seq<Seq<u8>> {
    t.map_values(|v: Vec<u8>| v@)
}

fn scan_line_comment(b: &[u8], k0: usize) -> (k: usize)
    requires
        k0 <= b@.len(),
    ensures
        k0 <= k <= b@.len(),
        k == line_comment_end(b@, k0 as int),
{
    let mut k = k0;
    while k < b.len() && b[k] != 0x0A && b[k] != 0x0D
        invariant
            k0 <= k <= b@.len(),
            line_comment_end(b@, k as int) == line_comment_end(b@, k0 as int),
        decreases b@.len() - k,
    {
        k = k + 1;
    }
    k
}

fn scan_block_comment(b: &[u8], k0: usize) -> (k: usize)
    requires
        k0 <= b@.len(),
    ensures
        k0 <= k <= b@.len(),
        k == block_comment_scan(b@, k0 as int),
{
    let mut k = k0;
    while b.len() > 0 && k < b.len() - 1 && !(b[k] == 0x2A && b[k + 1] == 0x2F)
        invariant
            k0 <= k <= b@.len(),
            block_comment_scan(b@, k as int) == block_comment_scan(b@, k0 as int),
        decreases b@.len() - k,
    {
        k = k + 1;
    }
    k
}

fn scan_quoted(b: &[u8], k0: usize, q: u8) -> (k: usize)
    requires
        k0 <= b@.len(),
    ensures
        k0 <= k <= b@.len(),
        k == quoted_end(b@, k0 as int, q),
{
    let mut k = k0;
    while k < b.len()
        invariant
            k0 <= k <= b@.len(),
            quoted_end(b@, k as int, q) == quoted_end(b@, k0 as int, q),
        decreases b@.len() - k,
    {
        if b[k] == q {
            if k + 1 < b.len() && b[k + 1] == q {
                k = k + 2;
            } else {
                return k + 1;
            }
        } else {
            k = k + 1;
        }
    }
    k
}

fn scan_bracket(b: &[u8], k0: usize) -> (k: usize)
    requires
        k0 <= b@.len(),
    ensures
        k0 <= k <= b@.len(),
        k == bracket_scan(b@, k0 as int),
{
    let mut k = k0;
    while k < b.len() && b[k] != 0x5D
        invariant
            k0 <= k <= b@.len(),
            bracket_scan(b@, k as int) == bracket_scan(b@, k0 as int),
        decreases b@.len() - k,
    {
        k = k + 1;
    }
    k
}

fn scan_word(b: &[u8], k0: usize) -> (k: usize)
    requires
        k0 <= b@.len(),
    ensures
        k0 <= k <= b@.len(),
        k == word_end(b@, k0 as int),
        forall|m: int| k0 <= m < k ==> is_word_byte(#[trigger] b@[m]),
{
    let mut k = k0;
    while k < b.len() && (byte_is_alnum(b[k]) || b[k] == 0x5F)
        invariant
            k0 <= k <= b@.len(),
            word_end(b@, k as int) == word_end(b@, k0 as int),
            forall|m: int| k0 <= m < k ==> is_word_byte(#[trigger] b@[m]),
        decreases b@.len() - k,
    {
        k = k + 1;
    }
    k
}

fn scan_number(b: &[u8], k0: usize) -> (k: usize)
    requires
        k0 <= b@.len(),
    ensures
        k0 <= k <= b@.len(),
        k == number_end(b@, k0 as int),
{
    let mut k = k0;
    while k < b.len() && (byte_is_alnum(b[k]) || b[k] == 0x2E || b[k] == 0x5F || b[k] == 0x2B
        || b[k] == 0x2D)
        invariant
            k0 <= k <= b@.len(),
            number_end(b@, k as int) == number_end(b@, k0 as int),
        decreases b@.len() - k,
    {
        k = k + 1;
    }
    k
}

fn question_mark() -> (v: Vec<u8>)
    ensures
        v@ == placeholder(),
        is_ascii_bytes(v@),
{
    let mut v = Vec::new();
    v.push(0x3F);
    proof {
        assert(v@ =~= placeholder());
    }
    v
}

/// `b[i..j]` in upper case.
fn upper_range(b: &[u8], i: usize, j: usize) -> (v: Vec<u8>)
    requires
        i <= j <= b@.len(),
        forall|m: int| i <= m < j ==> #[trigger] b@[m] < 128,
    ensures
        v@ == b@.subrange(i as int, j as int).map_values(|x: u8| to_upper(x)),
        is_ascii_bytes(v@),
{
    let mut v: Vec<u8> = Vec::new();
    let mut k = i;
    while k < j
        invariant
            i <= k <= j <= b@.len(),
            v@ == b@.subrange(i as int, k as int).map_values(|x: u8| to_upper(x)),
            forall|m: int| i <= m < j ==> #[trigger] b@[m] < 128,
            is_ascii_bytes(v@),
        decreases j - k,
    {
        v.push(byte_to_upper(b[k]));
        proof {
            assert(b@.subrange(i as int, k + 1).map_values(|x: u8| to_upper(x)) =~= b@.subrange(
                i as int,
                k as int,
            ).map_values(|x: u8| to_upper(x)).push(to_upper(b@[k as int])));
        }
        k = k + 1;
    }
    v
}

pub open spec fn opt_view(t: Option<Vec<u8>>) -> Option<Seq<u8>> {
    match t {
        Some(v) => Some(v@),
        None => None,
    }
}

fn lex_step_exec(b: &[u8], i: usize) -> (r: (usize, Option<Vec<u8>>))
    requires
        i < b@.len(),
    ensures
        i < r.0 <= b@.len(),
        r.0 == lex_step(b@, i as int).0,
        opt_view(r.1) == lex_step(b@, i as int).1,
        r.1 matches Some(v) ==> is_ascii_bytes(v@),
{
    let n = b.len();
    let c = b[i];
    if byte_is_ws(c) {
        (i + 1, None)
    } else if c == 0x2D && i + 1 < n && b[i + 1] == 0x2D {
        (scan_line_comment(b, i + 2), None)
    } else if c == 0x2F && i + 1 < n && b[i + 1] == 0x2A {
        let k = scan_block_comment(b, i + 2);
        let end = if k <= n - 2 {
            k + 2
        } else {
            n
        };
        (end, None)
    } else if c == 0x27 || c == 0x22 || c == 0x60 {
        (scan_quoted(b, i + 1, c), Some(question_mark()))
    } else if c == 0x5B {
        let k = scan_bracket(b, i + 1);
        let end = if k < n {
            k + 1
        } else {
            n
        };
        (end, Some(question_mark()))
    } else if c == 0x3F || c == 0x3A || c == 0x40 || c == 0x24 {
        (scan_word(b, i + 1), Some(question_mark()))
    } else if byte_is_digit(c) {
        (scan_number(b, i + 1), Some(question_mark()))
    } else if byte_is_alpha(c) || c == 0x5F {
        let j = scan_word(b, i + 1);
        proof {
            assert forall|m: int| i <= m < j implies #[trigger] b@[m] < 128 by {
                if m > i {
                    assert(is_word_byte(b@[m]));
                }
            }
        }
        let w = upper_range(b, i, j);
        if keyword_lookup(w.as_slice()) {
            (j, Some(w))
        } else {
            (j, Some(question_mark()))
        }
    } else if c == 0x28 || c == 0x29 || c == 0x2C || c == 0x3B || c == 0x2E {
        let mut v = Vec::new();
        v.push(c);
        proof {
            assert(v@ =~= seq![c]);
        }
        (i + 1, Some(v))
    } else if c == 0x3D || c == 0x3C || c == 0x3E || c == 0x2B || c == 0x2D || c == 0x2A || c
        == 0x2F || c == 0x25 || c == 0x7C {
        let mut v = Vec::new();
        v.push(c);
        if i + 1 < n && (b[i + 1] == 0x3D || b[i + 1] == 0x3E || b[i + 1] == 0x3C || b[i + 1]
            == 0x7C) {
            v.push(b[i + 1]);
            proof {
                assert(v@ =~= seq![c, b@[i + 1]]);
            }
            (i + 2, Some(v))
        } else {
            proof {
                assert(v@ =~= seq![c]);
            }
            (i + 1, Some(v))
        }
    } else {
        (i + 1, Some(question_mark()))
    }
}

/// The tokens of a SQL text (see `sql_tokens`).
fn lex_sql(b: &[u8]) -> (toks: Vec<Vec<u8>>)
    ensures
        tok_view(toks@) == sql_tokens(b@),
        forall|k: int| 0 <= k < toks@.len() ==> is_ascii_bytes(#[trigger] toks@[k]@),
{
    let mut toks: Vec<Vec<u8>> = Vec::new();
    let mut i: usize = 0;
    proof {
        assert(tok_view(toks@) =~= Seq::<Seq<u8>>::empty());
    }
    while i < b.len() && toks.len() < 96
        invariant
            i <= b@.len(),
            toks@.len() <= 96,
            tokens_from(b@, i as int, tok_view(toks@)) == sql_tokens(b@),
            forall|k: int| 0 <= k < toks@.len() ==> is_ascii_bytes(#[trigger] toks@[k]@),
        decreases b@.len() - i,
    {
        let (j, t) = lex_step_exec(b, i);
        let ghost before = tok_view(toks@);
        match t {
            Some(v) => {
                toks.push(v);
                proof {
                    assert(tok_view(toks@) =~= before.push(v@));
                }
            },
            None => {},
        }
        i = j;
    }
    toks
}

proof fn lemma_join_push(t: Seq<Seq<u8>>, x: Seq<u8>)
    requires
        t.len() > 0,
    ensures
        join_tokens(t.push(x)) == join_tokens(t) + seq![0x20u8] + x,
{
    assert(t.push(x).drop_last() =~= t);
}

/// The tokens joined by single spaces (see `join_tokens`).
fn join_ascii_tokens(toks: &Vec<Vec<u8>>) -> (out: Vec<u8>)
    requires
        forall|k: int| 0 <= k < toks@.len() ==> is_ascii_bytes(#[trigger] toks@[k]@),
    ensures
        out@ == join_tokens(tok_view(toks@)),
        is_ascii_bytes(out@),
{
    let ghost tv = tok_view(toks@);
    let mut out: Vec<u8> = Vec::new();
    let mut i: usize = 0;
    proof {
        assert(tv.take(0) =~= Seq::<Seq<u8>>::empty());
    }
    while i < toks.len()
        invariant
            i <= toks@.len(),
            tv == tok_view(toks@),
            forall|k: int| 0 <= k < toks@.len() ==> is_ascii_bytes(#[trigger] toks@[k]@),
            out@ == join_tokens(tv.take(i as int)),
            is_ascii_bytes(out@),
        decreases toks@.len() - i,
    {
        let ghost before = out@;
        if i > 0 {
            out.push(0x20);
        }
        append_bytes(&mut out, toks[i].as_slice());
        proof {
            assert(tv[i as int] == toks@[i as int]@);
            if i > 0 {
                lemma_join_push(tv.take(i as int), tv[i as int]);
                assert(tv.take(i + 1) =~= tv.take(i as int).push(tv[i as int]));
            } else {
                assert(tv.take(1) =~= seq![tv[0]]);
                assert(out@ =~= tv[0]);
            }
            assert(is_ascii_bytes(toks@[i as int]@));
            assert forall|k: int| 0 <= k < out@.len() implies #[trigger] out@[k] < 128 by {
                if k < before.len() {
                } else if i > 0 && k == before.len() {
                } else {
                    let off: int = if i > 0 { before.len() + 1int } else { before.len() as int };
                    assert(out@[k] == toks@[i as int]@[k - off]);
                }
            }
        }
        i = i + 1;
    }
    proof {
        assert(tv.take(toks@.len() as int) =~= tv);
    }
    out
}

/// Redacts a SQL statement to its shape (see `shape_bytes`): keywords in upper
/// case, punctuation and operators kept, everything else `?`, separated by
/// spaces, at most 96 tokens and 320 bytes.
pub fn redact_sql_shape(sql: &str) -> (shape: String)
    ensures
        shape@ == ascii_chars(shape_bytes(sql.spec_bytes())),
{
    let b = sql.as_bytes();
    let toks = lex_sql(b);
    let mut out = join_ascii_tokens(&toks);
    if out.len() == 0 {
        out.push(0x55);
        out.push(0x4E);
        out.push(0x4B);
        out.push(0x4E);
        out.push(0x4F);
        out.push(0x57);
        out.push(0x4E);
        proof {
            assert(out@ =~= unknown_shape());
        }
    }
    if out.len() > 320 {
        out.truncate(320);
    }
    crate::outside::ascii_string(out)
}


/// A token that carries no data of the statement: `?`, a kept keyword,
/// punctuation, or a one- or two-byte operator.
pub open spec fn data_free_token(t: Seq<u8>) -> bool {
    ||| t == placeholder()
    ||| is_sql_keyword(t)
    ||| (t.len() == 1 && is_punctuation(t[0]))
    ||| (t.len() == 1 && is_operator(t[0]))
    ||| (t.len() == 2 && is_operator(t[0]) && is_operator_suffix(t[1]))
}

proof fn lemma_lex_step_data_free(b: Seq<u8>, i: int)
    requires
        0 <= i < b.len(),
    ensures
        lex_step(b, i).1 matches Some(t) ==> data_free_token(t),
{
    let c = b[i];
    if is_alpha(c) || c == 0x5Fu8 {
        let j = word_end(b, i + 1);
        let w = b.subrange(i, j).map_values(|x: u8| to_upper(x));
        if is_sql_keyword(w) {
            assert(data_free_token(w));
        }
    }
}

proof fn lemma_tokens_from_data_free(b: Seq<u8>, i: int, toks: Seq<Seq<u8>>)
    requires
        forall|k: int| 0 <= k < toks.len() ==> data_free_token(#[trigger] toks[k]),
    ensures
        forall|k: int| 0 <= k < tokens_from(b, i, toks).len() ==> data_free_token(
            #[trigger] tokens_from(b, i, toks)[k],
        ),
    decreases b.len() - i,
{
    if i < 0 || i >= b.len() || toks.len() >= 96 {
    } else {
        let (j, t) = lex_step(b, i);
        if j <= i || j > b.len() {
        } else {
            let next = match t {
                Some(x) => toks.push(x),
                None => toks,
            };
            lemma_lex_step_data_free(b, i);
            assert forall|k: int| 0 <= k < next.len() implies data_free_token(#[trigger] next[k]) by {
                if k < toks.len() {
                    assert(next[k] == toks[k]);
                }
            }
            assert(tokens_from(b, i, toks) == tokens_from(b, j, next));
            lemma_tokens_from_data_free(b, j, next);
        }
    }
}

/// A shape removes identifiers, literals, comments and parameters: every
/// token of it is `?`, a kept keyword, punctuation or an operator.
pub proof fn law_shape_tokens_hold_no_data(sql: Seq<u8>)
    ensures
        forall|k: int| 0 <= k < sql_tokens(sql).len() ==> data_free_token(#[trigger] sql_tokens(sql)[k]),
{
    lemma_tokens_from_data_free(sql, 0, Seq::empty());
}

} // verus!
