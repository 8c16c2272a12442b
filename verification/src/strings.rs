//! Trusted shims for the few string operations that vstd leaves unspecified.

use vstd::prelude::*;

verus! {

/// Relies on `String::push`: appends the character to the end of the string.
#[verifier::external_body]
pub(crate) fn push_char(s: &mut String, ch: char)
    ensures
        final(s)@ == old(s)@.push(ch),
{
    s.push(ch);
}

/// Relies on `String::push_str`: appends the slice's characters to the end of
/// the string.
#[verifier::external_body]
pub(crate) fn push_text(s: &mut String, text: &str)
    ensures
        final(s)@ == old(s)@ + text@,
{
    s.push_str(text);
}

/// Relies on `String::pop`: removes the last character and returns it, or
/// returns `None` and leaves the string alone when it is empty.
#[verifier::external_body]
pub(crate) fn pop_char(s: &mut String) -> (removed: Option<char>)
    ensures
        old(s)@.len() == 0 ==> removed is None && final(s)@ == old(s)@,
        old(s)@.len() > 0 ==> removed == Some(old(s)@.last()) && final(s)@ == old(s)@.drop_last(),
{
    s.pop()
}

} // verus!
