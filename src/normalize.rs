//! Removal of the line terminator that command output usually ends with.
use vstd::prelude::*;

verus! {

/// The byte of a line feed.
pub const NEWLINE: u8 = 10;

/// `s` with one trailing line feed removed, if it ends with one.
pub open spec fn strip_newline(s: Seq<u8>) -> Seq<u8> {
    if s.len() > 0 && s.last() == NEWLINE {
        s.drop_last()
    } else {
        s
    }
}

/// Removes one trailing line feed from `input`, if there is one.
pub fn strip_trailing_newline(input: Vec<u8>) -> (r: Vec<u8>)
    ensures
        r@ == strip_newline(input@),
{
    let mut input = input;
    if input.len() > 0 && input[input.len() - 1] == NEWLINE {
        input.pop();
    }
    input
}

/// Stripping is idempotent on every input that does not end in two line
/// feeds: after one application there is no newline left to remove.
pub proof fn lemma_strip_newline_idempotent(s: Seq<u8>)
    requires
        !(s.len() >= 2 && s[s.len() - 2] == NEWLINE && s[s.len() - 1] == NEWLINE),
    ensures
        strip_newline(strip_newline(s)) == strip_newline(s),
{
}

} // verus!
