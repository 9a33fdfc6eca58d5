//! What this library takes on trust from the standard library's text
//! handling. Nothing in this file is proved; every other module is proved
//! against what is stated here.

use vstd::prelude::*;

verus! {

/// `String::push`: the string afterwards is the string before with `c`
/// added at its end, and nothing else changed.
pub assume_specification[ String::push ](s: &mut String, c: char)
    ensures
        final(s)@ == old(s)@.push(c),
;

/// Whether `c` has Unicode's `Alphabetic` property: what
/// `char::is_alphabetic` answers for it. The answer is a table of the
/// standard library, too long to write out here, so it only gets a name.
pub uninterp spec fn alphabetic(c: char) -> bool;

/// `char::is_alphabetic`: the answer depends on the character alone.
pub assume_specification[ char::is_alphabetic ](c: char) -> (answer: bool)
    ensures
        answer == alphabetic(c),
;

/// Whether `c` has Unicode's `White_Space` property: what
/// `char::is_whitespace` answers for it. Like [`alphabetic`], a table of
/// the standard library that only gets a name.
pub uninterp spec fn white_space(c: char) -> bool;

/// `char::is_whitespace`: the answer depends on the character alone.
pub assume_specification[ char::is_whitespace ](c: char) -> (answer: bool)
    ensures
        answer == white_space(c),
;

} // verus!
