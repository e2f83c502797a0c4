//! What the standard library's string operations do, as far as the relay
//! relies on them.

use vstd::prelude::*;

verus! {

/// `str`'s `==`: two slices are equal exactly where they hold the same
/// characters.
pub assume_specification[ <str as PartialEq>::eq ](left: &str, right: &str) -> (same: bool)
    ensures
        same == (left@ == right@),
;

/// `String::push`: the character is added at the end of the string.
pub assume_specification[ String::push ](s: &mut String, ch: char)
    ensures
        final(s)@ == old(s)@.push(ch),
;

/// `String::push_str`: the characters of `string` are added at the end of
/// the string, in their order.
pub assume_specification[ String::push_str ](s: &mut String, string: &str)
    ensures
        final(s)@ == old(s)@ + string@,
;

} // verus!
