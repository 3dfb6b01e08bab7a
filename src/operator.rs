//! Supported operators.
//!
//! The following operators are supported:
//! + Add (input: +, plus)
//! + Minus (input: -, minus)
//! + Mul (input: *, x, times, mal)
//! + Div (input: /, :, div, durch)
//! + Mod (input: %, mod, modulo)
//! + Pow (input: ^, **, pow, hoch)
use vstd::prelude::*;

use crate::error::{operator_prefix, Error, ErrorCode};

verus! {

/// Enumeration for allowed operators.
#[derive(Clone, Copy, Debug, PartialEq, Eq, Structural)]
pub enum Operator {
    /// Add = a + b
    Add,
    /// Minus = a - b
    Minus,
    /// Mul = a * b
    Mul,
    /// Div = a / b
    Div,
    /// Mod = a % b
    Mod,
    /// Pow = a ^ b
    Pow,
}

/// The spellings accepted for each operator, canonical glyph first.
pub open spec fn aliases(op: Operator) -> Seq<Seq<char>> {
    match op {
        Operator::Add => seq!["+"@, "plus"@],
        Operator::Minus => seq!["-"@, "minus"@],
        Operator::Mul => seq!["*"@, "x"@, "times"@, "mal"@],
        Operator::Div => seq!["/"@, ":"@, "div"@, "durch"@],
        Operator::Mod => seq!["%"@, "mod"@, "modulo"@],
        Operator::Pow => seq!["^"@, "**"@, "pow"@, "hoch"@],
    }
}

/// The operator that a whole token spells, if any (case-sensitive, no
/// partial match).
pub open spec fn operator_of(s: Seq<char>) -> Option<Operator> {
    if aliases(Operator::Add).contains(s) {
        Some(Operator::Add)
    } else if aliases(Operator::Minus).contains(s) {
        Some(Operator::Minus)
    } else if aliases(Operator::Mul).contains(s) {
        Some(Operator::Mul)
    } else if aliases(Operator::Div).contains(s) {
        Some(Operator::Div)
    } else if aliases(Operator::Mod).contains(s) {
        Some(Operator::Mod)
    } else if aliases(Operator::Pow).contains(s) {
        Some(Operator::Pow)
    } else {
        None
    }
}

/// The single character that displays an operator.
pub open spec fn glyph_of(op: Operator) -> char {
    match op {
        Operator::Add => '+',
        Operator::Minus => '-',
        Operator::Mul => '*',
        Operator::Div => '/',
        Operator::Mod => '%',
        Operator::Pow => '^',
    }
}

/// Whether two strings hold the same characters.
fn same_text(s: &str, t: &str) -> (r: bool)
    ensures
        r == (s@ == t@),
{
    let n = s.unicode_len();
    if n != t.unicode_len() {
        return false;
    }
    let mut i: usize = 0;
    while i < n
        invariant
            n == s@.len(),
            n == t@.len(),
            i <= n,
            s@.subrange(0, i as int) == t@.subrange(0, i as int),
        decreases n - i,
    {
        if s.get_char(i) != t.get_char(i) {
            assert(s@[i as int] != t@[i as int]);
            return false;
        }
        assert(s@.subrange(0, i + 1) =~= s@.subrange(0, i as int).push(s@[i as int]));
        assert(t@.subrange(0, i + 1) =~= t@.subrange(0, i as int).push(t@[i as int]));
        i = i + 1;
    }
    assert(s@ =~= s@.subrange(0, n as int));
    assert(t@ =~= t@.subrange(0, n as int));
    true
}

/// Whether the token is one of the given spellings.
fn is_one_of(s: &str, spellings: &[&str]) -> (r: bool)
    ensures
        r == exists|k: int| 0 <= k < spellings@.len() && s@ == spellings@[k]@,
{
    let mut i: usize = 0;
    while i < spellings.len()
        invariant
            i <= spellings@.len(),
            forall|k: int| 0 <= k < i ==> s@ != spellings@[k]@,
        decreases spellings@.len() - i,
    {
        if same_text(s, spellings[i]) {
            return true;
        }
        i = i + 1;
    }
    false
}

impl Operator {
    /// Parses a token into the operator it spells.
    ///
    /// Fails with `CannotParseOperator`, carrying the token, when the token is
    /// none of the accepted spellings.
    pub fn parse(s: &str) -> (r: Result<Operator, Error>)
        ensures
            operator_of(s@) matches Some(op) ==> r == Ok::<Operator, Error>(op),
            operator_of(s@) is None ==> (r matches Err(e) && e.spec_code()
                == ErrorCode::CannotParseOperator && e.spec_message() == operator_prefix() + s@),
    {
        if is_one_of(s, &["+", "plus"]) {
            assert(aliases(Operator::Add).contains(s@));
            return Ok(Operator::Add);
        }
        assert(!aliases(Operator::Add).contains(s@));
        if is_one_of(s, &["-", "minus"]) {
            assert(aliases(Operator::Minus).contains(s@));
            return Ok(Operator::Minus);
        }
        assert(!aliases(Operator::Minus).contains(s@));
        if is_one_of(s, &["*", "x", "times", "mal"]) {
            assert(aliases(Operator::Mul).contains(s@));
            return Ok(Operator::Mul);
        }
        assert(!aliases(Operator::Mul).contains(s@));
        if is_one_of(s, &["/", ":", "div", "durch"]) {
            assert(aliases(Operator::Div).contains(s@));
            return Ok(Operator::Div);
        }
        assert(!aliases(Operator::Div).contains(s@));
        if is_one_of(s, &["%", "mod", "modulo"]) {
            assert(aliases(Operator::Mod).contains(s@));
            return Ok(Operator::Mod);
        }
        assert(!aliases(Operator::Mod).contains(s@));
        if is_one_of(s, &["^", "**", "pow", "hoch"]) {
            assert(aliases(Operator::Pow).contains(s@));
            return Ok(Operator::Pow);
        }
        assert(!aliases(Operator::Pow).contains(s@));
        Err(Error::at_operator(s))
    }

    /// The canonical glyph of this operator, whichever spelling it was parsed
    /// from.
    pub fn glyph(&self) -> (r: char)
        ensures
            r == glyph_of(*self),
    {
        match self {
            Operator::Add => '+',
            Operator::Minus => '-',
            Operator::Mul => '*',
            Operator::Div => '/',
            Operator::Mod => '%',
            Operator::Pow => '^',
        }
    }

    /// The operator as displayed: its canonical glyph alone.
    pub fn to_string(&self) -> (r: String)
        ensures
            r@ == seq![glyph_of(*self)],
    {
        proof {
            lemma_spellings();
        }
        match self {
            Operator::Add => String::from_str("+"),
            Operator::Minus => String::from_str("-"),
            Operator::Mul => String::from_str("*"),
            Operator::Div => String::from_str("/"),
            Operator::Mod => String::from_str("%"),
            Operator::Pow => String::from_str("^"),
        }
    }
}

impl std::str::FromStr for Operator {
    type Err = Error;

    fn from_str(s: &str) -> (r: Result<Self, Self::Err>)
        ensures
            operator_of(s@) matches Some(op) ==> r == Ok::<Operator, Error>(op),
            operator_of(s@) is None ==> (r matches Err(e) && e.spec_code()
                == ErrorCode::CannotParseOperator && e.spec_message() == operator_prefix() + s@),
    {
        Operator::parse(s)
    }
}

/// The characters of each spelling in the table.
proof fn lemma_spellings()
    ensures
        "+"@ == seq!['+'],
        "plus"@ == seq!['p', 'l', 'u', 's'],
        "-"@ == seq!['-'],
        "minus"@ == seq!['m', 'i', 'n', 'u', 's'],
        "*"@ == seq!['*'],
        "x"@ == seq!['x'],
        "times"@ == seq!['t', 'i', 'm', 'e', 's'],
        "mal"@ == seq!['m', 'a', 'l'],
        "/"@ == seq!['/'],
        ":"@ == seq![':'],
        "div"@ == seq!['d', 'i', 'v'],
        "durch"@ == seq!['d', 'u', 'r', 'c', 'h'],
        "%"@ == seq!['%'],
        "mod"@ == seq!['m', 'o', 'd'],
        "modulo"@ == seq!['m', 'o', 'd', 'u', 'l', 'o'],
        "^"@ == seq!['^'],
        "**"@ == seq!['*', '*'],
        "pow"@ == seq!['p', 'o', 'w'],
        "hoch"@ == seq!['h', 'o', 'c', 'h'],
{
    reveal_strlit("+");
    reveal_strlit("plus");
    reveal_strlit("-");
    reveal_strlit("minus");
    reveal_strlit("*");
    reveal_strlit("x");
    reveal_strlit("times");
    reveal_strlit("mal");
    reveal_strlit("/");
    reveal_strlit(":");
    reveal_strlit("div");
    reveal_strlit("durch");
    reveal_strlit("%");
    reveal_strlit("mod");
    reveal_strlit("modulo");
    reveal_strlit("^");
    reveal_strlit("**");
    reveal_strlit("pow");
    reveal_strlit("hoch");
}

/// Every spelling in the table parses to the operator it is listed under.
pub proof fn lemma_alias_parses(op: Operator, i: int)
    requires
        0 <= i < aliases(op).len(),
    ensures
        operator_of(aliases(op)[i]) == Some(op),
{
    lemma_spellings();
    let t = aliases(op)[i];
    assert(aliases(op).contains(t));
    let all = seq![
        "+"@, "plus"@, "-"@, "minus"@, "*"@, "x"@, "times"@, "mal"@, "/"@, ":"@,
        "div"@, "durch"@, "%"@, "mod"@, "modulo"@, "^"@, "**"@, "pow"@, "hoch"@,
    ];
    assert forall|a: int, b: int| 0 <= a < b < all.len() implies all[a] != all[b] by {
        lemma_distinct_signature(all[a], all[b]);
    }
}

/// Two spellings differ when their lengths, first or last characters differ.
proof fn lemma_distinct_signature(s: Seq<char>, t: Seq<char>)
    requires
        s.len() > 0,
        t.len() > 0,
        s.len() != t.len() || s[0] != t[0] || s.last() != t.last(),
    ensures
        s != t,
{
}

/// No spelling is listed under two different operators.
pub proof fn lemma_aliases_disjoint(a: Operator, i: int, b: Operator, j: int)
    requires
        0 <= i < aliases(a).len(),
        0 <= j < aliases(b).len(),
        a != b,
    ensures
        aliases(a)[i] != aliases(b)[j],
{
    lemma_alias_parses(a, i);
    lemma_alias_parses(b, j);
}

/// A token that is no spelling of any operator is rejected.
pub proof fn lemma_unknown_token_rejected(s: Seq<char>)
    requires
        forall|op: Operator, i: int| 0 <= i < aliases(op).len() ==> aliases(op)[i] != s,
    ensures
        operator_of(s) is None,
{
    if operator_of(s) is Some {
        let op = operator_of(s).unwrap();
        let i = choose|i: int| 0 <= i < aliases(op).len() && aliases(op)[i] == s;
        assert(aliases(op)[i] == s);
    }
}

/// Parsing the displayed glyph of an operator gives that operator back.
pub proof fn lemma_glyph_round_trip(op: Operator)
    ensures
        operator_of(seq![glyph_of(op)]) == Some(op),
{
    lemma_spellings();
    assert(seq![glyph_of(op)] =~= aliases(op)[0]);
    lemma_alias_parses(op, 0);
}

} // verus!
