//! Small trusted shims over `std` string operations that vstd leaves
//! unspecified: appending to a `String`, and comparing string slices.
//! Everything else in the crate builds and compares strings through
//! these.

use vstd::prelude::*;

verus! {

/// Relies on `String::push_str`: appends the slice's characters to the
/// end of the string.
#[verifier::external_body]
pub(crate) fn push_str(dst: &mut String, piece: &str)
    ensures
        final(dst)@ == old(dst)@ + piece@,
{
    dst.push_str(piece);
}

/// Relies on `String::push`: appends one character to the end of the
/// string.
#[verifier::external_body]
pub(crate) fn push_char(dst: &mut String, c: char)
    ensures
        final(dst)@ == old(dst)@.push(c),
{
    dst.push(c);
}

/// Relies on `<str as PartialEq>::eq`: two string slices are equal
/// exactly when they consist of the same characters.
#[verifier::external_body]
pub(crate) fn str_eq(a: &str, b: &str) -> (r: bool)
    ensures
        r == (a@ == b@),
{
    a == b
}

} // verus!
