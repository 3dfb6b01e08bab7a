//! Supported operators and helper functions.
//!
//! The following operators are supported:
//!     + (add)
use vstd::prelude::*;

verus! {

/// The operator character that a one-character argument names, if any.
pub open spec fn glyph_named(arg: Seq<char>) -> Option<char> {
    if arg == seq!['+'] {
        Some('+')
    } else {
        None
    }
}

/// Parses a string to get the operator.
///
/// Only `+` is recognised; anything else, including an argument of more than
/// one character, gives `None`.
pub fn parse(arg: &str) -> (r: Option<char>)
    ensures
        r == glyph_named(arg@),
{
    if arg.unicode_len() != 1 {
        return None;
    }
    let c = arg.get_char(0);
    if c == '+' {
        assert(arg@ =~= seq!['+']);
        return Some(c);
    }
    assert(arg@ != seq!['+']) by {
        assert(arg@[0] != '+');
    }
    None
}

} // verus!
