//! The bridge from the caller's `&str` input to the character sequence the
//! parser works on, and the character classes of the lexical grammar.

use vstd::prelude::*;
use vstd::std_specs::iter::IteratorSpec;

verus! {

/// Collects the characters of `s` into a vector whose view is exactly `s@`.
pub fn str_to_char_vec(s: &str) -> (v: Vec<char>)
    ensures
        v@ == s@,
{
    broadcast use vstd::string::axiom_spec_iter, vstd::string::next_postcondition;

    let mut v: Vec<char> = Vec::new();
    let mut it = s.chars();
    loop
        invariant
            it.obeys_prophetic_iter_laws(),
            it.decrease() is Some,
            v@ + it.remaining() == s@,
        ensures
            it.remaining().len() == 0,
        decreases it.decrease()->0,
    {
        match it.next() {
            Some(c) => {
                v.push(c);
            },
            None => {
                break ;
            },
        }
    }
    proof {
        assert(v@ =~= s@);
    }
    v
}

/// A decimal digit.
pub open spec fn is_digit(c: char) -> bool {
    '0' <= c && c <= '9'
}

/// The characters a bare (unquoted) token may contain.
pub open spec fn is_bare(c: char) -> bool {
    ('0' <= c && c <= '9') || ('a' <= c && c <= 'z') || ('A' <= c && c <= 'Z')
}

/// Horizontal whitespace separating a tag from its value.
pub open spec fn is_hspace(c: char) -> bool {
    c == ' ' || c == '\t'
}

/// The numeric value of a digit character.
pub open spec fn digit_val(c: char) -> nat
    recommends
        is_digit(c),
{
    ((c as int) - ('0' as int)) as nat
}

/// Executable test for `is_digit`.
pub fn digit(c: char) -> (r: bool)
    ensures
        r == is_digit(c),
{
    '0' <= c && c <= '9'
}

/// Executable test for `is_bare`.
pub fn bare(c: char) -> (r: bool)
    ensures
        r == is_bare(c),
{
    ('0' <= c && c <= '9') || ('a' <= c && c <= 'z') || ('A' <= c && c <= 'Z')
}

/// Executable test for `is_hspace`.
pub fn hspace(c: char) -> (r: bool)
    ensures
        r == is_hspace(c),
{
    c == ' ' || c == '\t'
}

} // verus!
