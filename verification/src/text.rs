//! Building the short texts that go out with events.

use vstd::prelude::*;

verus! {

/// `String::push_str`: appends the given string slice onto the end of the
/// string.
pub assume_specification[ String::push_str ](s: &mut String, other: &str)
    ensures
        final(s)@ == old(s)@ + other@,
;

/// The concatenation of two texts.
pub fn joined(head: &str, tail: &str) -> (text: String)
    ensures
        text@ == head@ + tail@,
{
    let mut text = head.to_owned();
    text.push_str(tail);
    text
}

} // verus!
