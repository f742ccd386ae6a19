//! Taking a string apart, one scalar value at a time.

use vstd::prelude::*;
use vstd::std_specs::iter::IteratorSpec;
use std::str::Chars;

verus! {

/// `Chars::as_str` of std: the part of the string that the iterator has not
/// yet walked, which holds the scalar values that it has yet to yield.
pub assume_specification<'a>[ Chars::<'a>::as_str ](chars: &Chars<'a>) -> (rest: &'a str)
    ensures
        rest@ == chars.remaining(),
;

/// Splits the first scalar value off a string.
pub fn split_first<'a>(s: &'a str) -> (r: Option<(char, &'a str)>)
    ensures
        s@.len() == 0 ==> r is None,
        s@.len() > 0 ==> (r matches Some((c, rest)) && c == s@[0] && rest@ == s@.drop_first()),
{
    broadcast use vstd::string::group_string_axioms;

    let mut iter = s.chars();
    match iter.next() {
        None => None,
        Some(c) => {
            let rest = iter.as_str();
            Some((c, rest))
        },
    }
}

/// The first scalar value of a string.
pub fn first<'a>(s: &'a str) -> (r: Option<char>)
    ensures
        s@.len() == 0 ==> r is None,
        s@.len() > 0 ==> r == Some(s@[0]),
{
    match split_first(s) {
        None => None,
        Some((c, _)) => Some(c),
    }
}

} // verus!
