//! Random alphanumeric secrets: the archive password and the decoy that
//! replaces it in secure mode.

use vstd::prelude::*;
use crate::text::push_char;

verus! {

/// Length of every generated archive password.
pub const PASSWORD_LENGTH: usize = 16;

pub open spec fn is_alphanumeric_char(c: char) -> bool {
    ('A' <= c && c <= 'Z') || ('a' <= c && c <= 'z') || ('0' <= c && c <= '9')
}

pub open spec fn all_alphanumeric(s: Seq<char>) -> bool {
    forall|i: int| 0 <= i < s.len() ==> is_alphanumeric_char(s[i])
}

/// Relies on `rand::random_range`: a uniformly distributed value below
/// `bound`, drawn from the thread-local cryptographically secure generator.
/// The call panics on an empty range, so the bound must be positive.
#[verifier::external_body]
fn random_below(bound: u32) -> (r: u32)
    requires
        bound > 0,
    ensures
        r < bound,
{
    rand::random_range(0..bound)
}

/// The alphanumeric alphabet, indexed 0..62: upper-case letters, then
/// lower-case letters, then digits.
pub open spec fn spec_alphanumeric_char(i: int) -> char {
    if i < 26 {
        ((65 + i) as u8) as char
    } else if i < 52 {
        ((97 + (i - 26)) as u8) as char
    } else {
        ((48 + (i - 52)) as u8) as char
    }
}

fn alphanumeric_char(i: u32) -> (c: char)
    requires
        i < 62,
    ensures
        c == spec_alphanumeric_char(i as int),
        is_alphanumeric_char(c),
{
    let b: u8 = if i < 26 {
        65 + (i as u8)
    } else if i < 52 {
        97 + ((i as u8) - 26)
    } else {
        48 + ((i as u8) - 52)
    };
    b as char
}

/// A fresh random string over the alphanumeric alphabet, of the exact
/// length asked for.
pub fn random_alphanumeric(length: usize) -> (r: String)
    ensures
        r@.len() == length,
        all_alphanumeric(r@),
{
    let mut s = String::new();
    let mut i: usize = 0;
    while i < length
        invariant
            i <= length,
            s@.len() == i,
            all_alphanumeric(s@),
        decreases length - i,
    {
        let idx = random_below(62);
        let c = alphanumeric_char(idx);
        push_char(&mut s, c);
        i = i + 1;
    }
    s
}

/// Fabricates a wrong password of a chosen length, never derived from the
/// real one: it only ever sees the length.
pub struct DecoyPasswordGenerator;

impl DecoyPasswordGenerator {
    /// A random alphanumeric string of exactly `length` characters.
    pub fn generate(&self, length: usize) -> (r: String)
        ensures
            r@.len() == length,
            all_alphanumeric(r@),
    {
        random_alphanumeric(length)
    }
}

} // verus!
