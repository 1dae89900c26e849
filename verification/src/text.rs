//! Trusted conversions between `String` text and its character sequence.
use vstd::prelude::*;

verus! {

/// Relies on str::chars: yields exactly the characters of the text, in
/// order (the view of a `str` is that character sequence).
#[verifier::external_body]
pub fn chars_vec(s: &str) -> (r: Vec<char>)
    ensures
        r@ == s@,
{
    s.chars().collect()
}

/// Relies on String's FromIterator over chars: collecting characters
/// builds the text with exactly those characters.
#[verifier::external_body]
pub fn string_of_chars(v: &Vec<char>) -> (r: String)
    ensures
        r@ == v@,
{
    v.iter().collect()
}

} // verus!
