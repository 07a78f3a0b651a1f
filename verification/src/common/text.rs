//! Comparison of optional texts by their contents.
use vstd::prelude::*;

verus! {

/// std's reflexive `impl<T> From<T> for T`: `from` returns the argument unchanged, as
/// its documentation says. Through it, `into` on a `String` that is to become a `String`
/// keeps the text.
pub assume_specification<U>[ <U as core::convert::From<U>>::from ](u: U) -> (r: U)
    ensures
        r == u,
;

/// std's `impl From<&str> for String`: `from` converts the text into a `String`, whose
/// characters are those of the text.
pub assume_specification<'a>[ <String as core::convert::From<&'a str>>::from ](s: &str) -> (r: String)
    ensures
        r@ == s@,
;

/// The characters of an optional text.
pub open spec fn opt_text(o: Option<String>) -> Option<Seq<char>> {
    match o {
        Some(s) => Some(s@),
        None => None,
    }
}

/// Whether two optional texts are both absent or both present with the same characters.
pub fn opt_text_eq(a: &Option<String>, b: &Option<String>) -> (r: bool)
    ensures
        r == (opt_text(*a) == opt_text(*b)),
{
    match (a, b) {
        (Some(x), Some(y)) => *x == *y,
        (None, None) => true,
        _ => false,
    }
}

} // verus!

verus! {

/// The number of bytes in the UTF-8 encoding of a text (as `str::len` reports it).
pub open spec fn utf8_len(text: Seq<char>) -> usize {
    vstd::utf8::encode_utf8(text).len() as usize
}

/// The length in bytes of a text, as `String::len` gives it.
pub fn byte_len(text: &String) -> (r: usize)
    ensures
        r == utf8_len(text@),
{
    text.as_str().len()
}

} // verus!
