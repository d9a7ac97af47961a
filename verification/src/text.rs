//! Small helpers for building and inspecting strings character by character.

use vstd::prelude::*;

verus! {

/// Relies on std's `String::push`: appends one character at the end of the
/// string; vstd gives it no specification of its own.
#[verifier::external_body]
pub(crate) fn push_char(s: &mut String, c: char)
    ensures
        final(s)@ == old(s)@.push(c),
{
    s.push(c);
}

/// The archive sits beside its source file: the archive path is the source
/// path with a `.zip` suffix.
pub fn zip_path_for(path: &str) -> (r: String)
    ensures
        r@ == path@ + ".zip"@,
{
    let mut s = path.to_owned();
    s.append(".zip");
    s
}

} // verus!
