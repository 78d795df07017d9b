//! The identifier pattern `^[a-z][a-z0-9_]*$` as a predicate on sequences
//! of characters, with the character classes it is made of.

use vstd::prelude::*;

verus! {

/// `c` is one of the ASCII letters `a` to `z`.
pub open spec fn spec_is_lower(c: char) -> bool {
    'a' <= c && c <= 'z'
}

/// `c` is one of the ASCII digits `0` to `9`.
pub open spec fn spec_is_digit(c: char) -> bool {
    '0' <= c && c <= '9'
}

/// `c` may stand after the first character of an identifier: a lowercase
/// letter, a digit or an underscore.
pub open spec fn spec_is_tail(c: char) -> bool {
    is_lower(c) || is_digit(c) || c == '_'
}

/// `s` matches `^[a-z][a-z0-9_]*$`: it is not empty, starts with a
/// lowercase letter and goes on with lowercase letters, digits and
/// underscores only.
pub open spec fn matches_pattern(s: Seq<char>) -> bool {
    &&& s.len() >= 1
    &&& is_lower(s[0])
    &&& forall|i: int| 1 <= i < s.len() ==> is_tail(#[trigger] s[i])
}

#[verifier::when_used_as_spec(spec_is_lower)]
pub fn is_lower(c: char) -> (r: bool)
    ensures
        r == spec_is_lower(c),
{
    'a' <= c && c <= 'z'
}

#[verifier::when_used_as_spec(spec_is_digit)]
pub fn is_digit(c: char) -> (r: bool)
    ensures
        r == spec_is_digit(c),
{
    '0' <= c && c <= '9'
}

#[verifier::when_used_as_spec(spec_is_tail)]
pub fn is_tail(c: char) -> (r: bool)
    ensures
        r == spec_is_tail(c),
{
    is_lower(c) || is_digit(c) || c == '_'
}

} // verus!
