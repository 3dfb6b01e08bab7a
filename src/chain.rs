//! Follow-up lines of an interactive calculation.
//!
//! After the first result, each line the user enters names an operator and a
//! new operand, applied to the previous result. The operator and operand may be
//! separated by whitespace (`+ 5`) or written together (`+5`). A line that
//! cannot be split this way ends the session.
use vstd::prelude::*;

use crate::error::{operator_prefix, Error, ErrorCode};
use crate::operator::{glyph_of, operator_of, Operator};

verus! {

/// Whether a character has the Unicode `White_Space` property.
pub open spec fn is_space(c: char) -> bool {
    let u = c as u32;
    ||| 0x9 <= u <= 0xD
    ||| u == 0x20
    ||| u == 0x85
    ||| u == 0xA0
    ||| u == 0x1680
    ||| 0x2000 <= u <= 0x200A
    ||| u == 0x2028
    ||| u == 0x2029
    ||| u == 0x202F
    ||| u == 0x205F
    ||| u == 0x3000
}

/// Whether a character can start an operand: a decimal digit or `.`.
pub open spec fn starts_operand(c: char) -> bool {
    c == '.' || ('0' as u32 <= c as u32 <= '9' as u32)
}

/// The first index at or after `i` holding whitespace, or the length of `s`.
pub open spec fn next_space(s: Seq<char>, i: int) -> int
    decreases s.len() - i,
{
    if 0 <= i < s.len() {
        if is_space(s[i]) {
            i
        } else {
            next_space(s, i + 1)
        }
    } else {
        s.len() as int
    }
}

/// The first index at or after `i` holding no whitespace, or the length of `s`.
pub open spec fn next_non_space(s: Seq<char>, i: int) -> int
    decreases s.len() - i,
{
    if 0 <= i < s.len() {
        if !is_space(s[i]) {
            i
        } else {
            next_non_space(s, i + 1)
        }
    } else {
        s.len() as int
    }
}

/// The first index at or after `i` where an operand can start, or the length
/// of `s`.
pub open spec fn next_operand_start(s: Seq<char>, i: int) -> int
    decreases s.len() - i,
{
    if 0 <= i < s.len() {
        if starts_operand(s[i]) {
            i
        } else {
            next_operand_start(s, i + 1)
        }
    } else {
        s.len() as int
    }
}

/// The end of `s.subrange(0, e)` once trailing whitespace is dropped.
pub open spec fn end_without_space(s: Seq<char>, e: int) -> int
    decreases e,
{
    if 0 < e <= s.len() && is_space(s[e - 1]) {
        end_without_space(s, e - 1)
    } else {
        e
    }
}

/// The line without leading and trailing whitespace.
pub open spec fn trimmed(s: Seq<char>) -> Seq<char> {
    let start = next_non_space(s, 0);
    if start == s.len() {
        Seq::empty()
    } else {
        s.subrange(start, end_without_space(s, s.len() as int))
    }
}

/// How a trimmed, non-empty line splits into operator and operand tokens.
///
/// With whitespace inside, it must hold exactly two tokens. Without, the
/// operand starts at the first digit or `.`, which must not be the first
/// character.
pub open spec fn split_trimmed(t: Seq<char>) -> Option<(Seq<char>, Seq<char>)> {
    let i = next_space(t, 0);
    if i < t.len() {
        let j = next_non_space(t, i);
        if next_space(t, j) == t.len() {
            Some((t.subrange(0, i), t.subrange(j, t.len() as int)))
        } else {
            None
        }
    } else {
        let k = next_operand_start(t, 0);
        if k == t.len() || k == 0 {
            None
        } else {
            Some((t.subrange(0, k), t.subrange(k, t.len() as int)))
        }
    }
}

/// The operator and operand tokens of a follow-up line, or `None` where the
/// line ends the session.
pub open spec fn split_of(line: Seq<char>) -> Option<(Seq<char>, Seq<char>)> {
    let t = trimmed(line);
    if t.len() == 0 {
        None
    } else {
        split_trimmed(t)
    }
}

/// Whether a character has the Unicode `White_Space` property.
fn is_space_char(c: char) -> (r: bool)
    ensures
        r == is_space(c),
{
    let u = c as u32;
    (0x9 <= u && u <= 0xD) || u == 0x20 || u == 0x85 || u == 0xA0 || u == 0x1680 || (0x2000
        <= u && u <= 0x200A) || u == 0x2028 || u == 0x2029 || u == 0x202F || u == 0x205F || u
        == 0x3000
}

fn scan_space(s: &str, n: usize, i: usize) -> (r: usize)
    requires
        n == s@.len(),
        i <= n,
    ensures
        r == next_space(s@, i as int),
        i <= r <= n,
{
    let mut k = i;
    while k < n
        invariant
            n == s@.len(),
            i <= k <= n,
            next_space(s@, k as int) == next_space(s@, i as int),
        decreases n - k,
    {
        if is_space_char(s.get_char(k)) {
            return k;
        }
        k = k + 1;
    }
    k
}

fn scan_non_space(s: &str, n: usize, i: usize) -> (r: usize)
    requires
        n == s@.len(),
        i <= n,
    ensures
        r == next_non_space(s@, i as int),
        i <= r <= n,
        r < n ==> !is_space(s@[r as int]),
{
    let mut k = i;
    while k < n
        invariant
            n == s@.len(),
            i <= k <= n,
            next_non_space(s@, k as int) == next_non_space(s@, i as int),
        decreases n - k,
    {
        if !is_space_char(s.get_char(k)) {
            return k;
        }
        k = k + 1;
    }
    k
}

fn scan_operand_start(s: &str, n: usize) -> (r: usize)
    requires
        n == s@.len(),
    ensures
        r == next_operand_start(s@, 0),
        r <= n,
{
    let mut k: usize = 0;
    while k < n
        invariant
            n == s@.len(),
            k <= n,
            next_operand_start(s@, k as int) == next_operand_start(s@, 0),
        decreases n - k,
    {
        let c = s.get_char(k);
        if c == '.' || ('0' <= c && c <= '9') {
            return k;
        }
        k = k + 1;
    }
    k
}

fn scan_trailing_space(s: &str, n: usize) -> (r: usize)
    requires
        n == s@.len(),
    ensures
        r == end_without_space(s@, n as int),
        r <= n,
{
    let mut e = n;
    while e > 0
        invariant
            n == s@.len(),
            e <= n,
            end_without_space(s@, e as int) == end_without_space(s@, n as int),
        decreases e,
    {
        if !is_space_char(s.get_char(e - 1)) {
            return e;
        }
        e = e - 1;
    }
    e
}

proof fn lemma_end_after_non_space(s: Seq<char>, p: int, e: int)
    requires
        0 <= p < e <= s.len(),
        !is_space(s[p]),
    ensures
        p < end_without_space(s, e) <= e,
    decreases e,
{
    if is_space(s[e - 1]) {
        lemma_end_after_non_space(s, p, e - 1);
    }
}

/// Splits a follow-up line into its operator token and operand token.
///
/// Returns `None` for a blank line, for a line of more than two
/// whitespace-separated tokens, and for a single token in which no digit or
/// `.` follows an operator part.
pub fn split_line<'a>(line: &'a str) -> (r: Option<(&'a str, &'a str)>)
    ensures
        r is None <==> split_of(line@) is None,
        r matches Some((op, operand)) ==> split_of(line@) == Some((op@, operand@)),
{
    let n = line.unicode_len();
    let start = scan_non_space(line, n, 0);
    if start == n {
        return None;
    }
    let end = scan_trailing_space(line, n);
    proof {
        lemma_end_after_non_space(line@, start as int, n as int);
    }
    let t = line.substring_char(start, end);
    assert(t@ == trimmed(line@));
    let m = t.unicode_len();
    let i = scan_space(t, m, 0);
    if i < m {
        let j = scan_non_space(t, m, i);
        if scan_space(t, m, j) == m {
            Some((t.substring_char(0, i), t.substring_char(j, m)))
        } else {
            None
        }
    } else {
        let k = scan_operand_start(t, m);
        if k == m || k == 0 {
            None
        } else {
            Some((t.substring_char(0, k), t.substring_char(k, m)))
        }
    }
}

/// What a follow-up line asks of the session.
///
/// `Ok(None)`: the line ends the session. `Ok(Some((op, operand)))`: apply
/// `op` to the previous result and the number that the operand token spells.
/// An operator token that names no operator is an error, which ends the
/// session as a failure.
pub fn next_step<'a>(line: &'a str) -> (r: Result<Option<(Operator, &'a str)>, Error>)
    ensures
        split_of(line@) is None ==> r matches Ok(None),
        split_of(line@) matches Some((o, b)) ==> match operator_of(o) {
            Some(op) => r matches Ok(Some((p, t))) && p == op && t@ == b,
            None => r matches Err(e) && e.spec_code() == ErrorCode::CannotParseOperator
                && e.spec_message() == operator_prefix() + o,
        },
{
    match split_line(line) {
        None => Ok(None),
        Some((o, b)) => match Operator::parse(o) {
            Ok(op) => Ok(Some((op, b))),
            Err(e) => Err(e),
        },
    }
}

/// The line that reports one calculation: `a op b = result`, with the
/// operator's canonical glyph and the numbers as already rendered.
pub fn result_line(a: &str, op: Operator, b: &str, result: &str) -> (r: String)
    ensures
        r@ == a@ + seq![' ', glyph_of(op), ' '] + b@ + seq![' ', '=', ' '] + result@,
{
    proof {
        reveal_strlit(" ");
        reveal_strlit(" = ");
    }
    let mut r = String::from_str(a);
    r.append(" ");
    let g = op.to_string();
    r.append(g.as_str());
    r.append(" ");
    r.append(b);
    r.append(" = ");
    r.append(result);
    proof {
        assert(r@ =~= a@ + seq![' ', glyph_of(op), ' '] + b@ + seq![' ', '=', ' '] + result@);
    }
    r
}

} // verus!
