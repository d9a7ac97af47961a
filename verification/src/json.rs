//! JSON string escaping for the hand-built wire format of the mail API.
//! The escaped text is defined by a spec function and the builder is
//! proved against it.

use vstd::prelude::*;
use crate::text::push_char;

verus! {

/// The hexadecimal digit for a value below sixteen, lower-case.
pub open spec fn hex_char(v: int) -> char {
    if v < 10 {
        ((48 + v) as u8) as char
    } else {
        ((87 + v) as u8) as char
    }
}

/// How one character appears inside a JSON string literal: quotes and
/// backslashes are escaped, control characters take the `\u00XX` form,
/// everything else stands as itself.
pub open spec fn json_escape_char(c: char) -> Seq<char> {
    if c == '"' {
        seq!['\\', '"']
    } else if c == '\\' {
        seq!['\\', '\\']
    } else if c == '\n' {
        seq!['\\', 'n']
    } else if c == '\r' {
        seq!['\\', 'r']
    } else if c == '\t' {
        seq!['\\', 't']
    } else if (c as u32) < 32 {
        seq!['\\', 'u', '0', '0', hex_char((c as u32) as int / 16), hex_char((c as u32) as int % 16)]
    } else {
        seq![c]
    }
}

/// A whole string, escaped character by character.
pub open spec fn json_escaped(s: Seq<char>) -> Seq<char>
    decreases s.len(),
{
    if s.len() == 0 {
        Seq::empty()
    } else {
        json_escape_char(s[0]) + json_escaped(s.skip(1))
    }
}

/// A JSON string literal: the escaped text between double quotes.
pub open spec fn json_quoted(s: Seq<char>) -> Seq<char> {
    seq!['"'] + json_escaped(s) + seq!['"']
}

proof fn lemma_json_escaped_append(s1: Seq<char>, s2: Seq<char>)
    ensures
        json_escaped(s1 + s2) == json_escaped(s1) + json_escaped(s2),
    decreases s1.len(),
{
    if s1.len() == 0 {
        assert(s1 + s2 =~= s2);
        assert(json_escaped(s1) + json_escaped(s2) =~= json_escaped(s2));
    } else {
        let whole = s1 + s2;
        assert(whole[0] == s1[0]);
        assert(whole.skip(1) =~= s1.skip(1) + s2);
        lemma_json_escaped_append(s1.skip(1), s2);
        assert(json_escaped(s1 + s2) =~= json_escaped(s1) + json_escaped(s2));
    }
}

fn hex_digit(v: u32) -> (c: char)
    requires
        v < 16,
    ensures
        c == hex_char(v as int),
{
    if v < 10 {
        (48 + v as u8) as char
    } else {
        (87 + v as u8) as char
    }
}

fn push_escaped_char(out: &mut String, c: char)
    ensures
        final(out)@ == old(out)@ + json_escape_char(c),
{
    if c == '"' {
        push_char(out, '\\');
        push_char(out, '"');
    } else if c == '\\' {
        push_char(out, '\\');
        push_char(out, '\\');
    } else if c == '\n' {
        push_char(out, '\\');
        push_char(out, 'n');
    } else if c == '\r' {
        push_char(out, '\\');
        push_char(out, 'r');
    } else if c == '\t' {
        push_char(out, '\\');
        push_char(out, 't');
    } else if (c as u32) < 32 {
        let v = c as u32;
        push_char(out, '\\');
        push_char(out, 'u');
        push_char(out, '0');
        push_char(out, '0');
        push_char(out, hex_digit(v / 16));
        push_char(out, hex_digit(v % 16));
    } else {
        push_char(out, c);
    }
    proof {
        assert(final(out)@ =~= old(out)@ + json_escape_char(c));
    }
}

/// Appends `s` to `out` in its escaped form.
fn push_escaped(out: &mut String, s: &str)
    ensures
        final(out)@ == old(out)@ + json_escaped(s@),
{
    let n = s.unicode_len();
    let mut j: usize = 0;
    while j < n
        invariant
            n == s@.len(),
            j <= n,
            out@ == old(out)@ + json_escaped(s@.take(j as int)),
        decreases n - j,
    {
        let c = s.get_char(j);
        push_escaped_char(out, c);
        proof {
            let prefix = s@.take(j as int);
            assert(s@.take(j as int + 1) =~= prefix + seq![c]);
            lemma_json_escaped_append(prefix, seq![c]);
            assert(seq![c].skip(1) =~= Seq::<char>::empty());
            assert(seq![c][0] == c);
            assert(json_escaped(seq![c].skip(1)) == Seq::<char>::empty());
            assert(json_escape_char(c) + Seq::<char>::empty() =~= json_escape_char(c));
            assert(json_escaped(seq![c]) =~= json_escape_char(c));
            assert(out@ =~= old(out)@ + json_escaped(s@.take(j as int + 1)));
        }
        j = j + 1;
    }
    proof {
        assert(s@.take(n as int) =~= s@);
    }
}

/// Appends `s` to `out` as a quoted JSON string literal.
pub fn push_json_string(out: &mut String, s: &str)
    ensures
        final(out)@ == old(out)@ + json_quoted(s@),
{
    push_char(out, '"');
    push_escaped(out, s);
    push_char(out, '"');
    proof {
        assert(final(out)@ =~= old(out)@ + json_quoted(s@));
    }
}

} // verus!
