//! What this crate takes on trust: the two functions of the standard library
//! with which it builds text, and what it believes of them. Everything else
//! in the crate is proved.

use vstd::prelude::*;

verus! {

/// `char::from_u32` of the standard library. Its documentation gives `None`
/// for a value that is no `char`, and a `char` is any scalar value: a number
/// up to `0x10FFFF` that is no surrogate. For those it gives the `char` with
/// that number.
pub assume_specification[ char::from_u32 ](i: u32) -> (r: Option<char>)
    ensures
        r == (if i <= 0xD7FF || (0xE000 <= i && i <= 0x10FFFF) {
            Some(i as char)
        } else {
            None
        }),
;

/// `String::push` of the standard library, which appends one character.
pub assume_specification[ std::string::String::push ](s: &mut std::string::String, ch: char)
    ensures
        final(s)@ == old(s)@.push(ch),
;

} // verus!
