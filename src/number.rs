//! Decimal-separator handling for number tokens.
//!
//! A number token may use either `.` (English) or `,` (German) as its decimal
//! separator. The first `,` of a token is turned into `.`; the result is then
//! read as an ordinary floating-point literal by the caller.
use vstd::prelude::*;

verus! {

/// The token with its first `,` replaced by `.`; any later `,` is kept.
pub open spec fn first_comma_to_point(s: Seq<char>) -> Seq<char>
    decreases s.len(),
{
    if s.len() == 0 {
        s
    } else if s[0] == ',' {
        seq!['.'] + s.drop_first()
    } else {
        seq![s[0]] + first_comma_to_point(s.drop_first())
    }
}

/// The token with every `,` replaced by `.`.
pub open spec fn all_commas_to_points(s: Seq<char>) -> Seq<char> {
    s.map_values(|c: char| if c == ',' { '.' } else { c })
}

/// How many times `,` occurs in the token.
pub open spec fn comma_count(s: Seq<char>) -> nat
    decreases s.len(),
{
    if s.len() == 0 {
        0
    } else {
        (if s[0] == ',' { 1nat } else { 0nat }) + comma_count(s.drop_first())
    }
}

/// Below index `i`, the token holds no `,`.
pub open spec fn no_comma_before(s: Seq<char>, i: int) -> bool {
    forall|k: int| 0 <= k < i ==> s[k] != ','
}

proof fn lemma_no_comma_unchanged(s: Seq<char>)
    requires
        no_comma_before(s, s.len() as int),
    ensures
        first_comma_to_point(s) == s,
    decreases s.len(),
{
    if s.len() > 0 {
        lemma_no_comma_unchanged(s.drop_first());
        assert(seq![s[0]] + s.drop_first() =~= s);
    }
}

proof fn lemma_first_comma_at(s: Seq<char>, i: int)
    requires
        0 <= i < s.len(),
        s[i] == ',',
        no_comma_before(s, i),
    ensures
        first_comma_to_point(s) == s.update(i, '.'),
    decreases s.len(),
{
    if i == 0 {
        assert(seq!['.'] + s.drop_first() =~= s.update(0, '.'));
    } else {
        lemma_first_comma_at(s.drop_first(), i - 1);
        assert(seq![s[0]] + s.drop_first().update(i - 1, '.') =~= s.update(i, '.'));
    }
}

/// Replaces the first occurrence of `,` in `s` with `.`.
///
/// Only the first comma is touched, so `"1,2,3"` becomes `"1.2,3"`, which no
/// floating-point grammar accepts. Whitespace is not trimmed.
pub fn normalize(s: &str) -> (r: String)
    ensures
        r@ == first_comma_to_point(s@),
{
    let n = s.unicode_len();
    let mut i: usize = 0;
    while i < n
        invariant
            n == s@.len(),
            i <= n,
            no_comma_before(s@, i as int),
        decreases n - i,
    {
        if s.get_char(i) == ',' {
            proof {
                lemma_first_comma_at(s@, i as int);
            }
            let mut r = String::from_str(s.substring_char(0, i));
            r.append(".");
            r.append(s.substring_char(i + 1, n));
            proof {
                reveal_strlit(".");
                assert(r@ =~= s@.update(i as int, '.'));
            }
            return r;
        }
        i = i + 1;
    }
    proof {
        lemma_no_comma_unchanged(s@);
    }
    String::from_str(s)
}

/// A token with at most one `,` reads the same once normalized as the token
/// with every `,` written as `.`: both spellings of a decimal number give the
/// same text to the floating-point reader, hence the same value.
pub proof fn lemma_separator_neutral(s: Seq<char>)
    requires
        comma_count(s) <= 1,
    ensures
        first_comma_to_point(s) == first_comma_to_point(all_commas_to_points(s)),
{
    let t = all_commas_to_points(s);
    assert(no_comma_before(t, t.len() as int));
    lemma_no_comma_unchanged(t);
    lemma_normalized_is_all_points(s);
}

proof fn lemma_normalized_is_all_points(s: Seq<char>)
    requires
        comma_count(s) <= 1,
    ensures
        first_comma_to_point(s) == all_commas_to_points(s),
    decreases s.len(),
{
    if s.len() > 0 {
        let rest = s.drop_first();
        if s[0] == ',' {
            lemma_no_comma_count(rest);
            lemma_no_comma_unchanged(rest);
            assert(seq!['.'] + rest =~= all_commas_to_points(s));
        } else {
            lemma_normalized_is_all_points(rest);
            assert(seq![s[0]] + all_commas_to_points(rest) =~= all_commas_to_points(s));
        }
    }
}

proof fn lemma_no_comma_count(s: Seq<char>)
    requires
        comma_count(s) == 0,
    ensures
        no_comma_before(s, s.len() as int),
    decreases s.len(),
{
    if s.len() > 0 {
        lemma_no_comma_count(s.drop_first());
        assert forall|k: int| 0 <= k < s.len() implies s[k] != ',' by {
            if k > 0 {
                assert(s[k] == s.drop_first()[k - 1]);
            }
        }
    }
}

} // verus!
