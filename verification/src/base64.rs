//! Standard base64 with padding, as attachment bodies are carried in the
//! mail API's wire format. Encoding is defined by a spec function over the
//! byte sequence and proved against it.

use vstd::prelude::*;
use crate::text::push_char;

verus! {

/// The base64 digit for a six-bit value: upper-case letters, lower-case
/// letters, digits, `+`, `/`.
pub open spec fn b64_char(v: int) -> char {
    if v < 26 {
        ((65 + v) as u8) as char
    } else if v < 52 {
        ((97 + (v - 26)) as u8) as char
    } else if v < 62 {
        ((48 + (v - 52)) as u8) as char
    } else if v == 62 {
        '+'
    } else {
        '/'
    }
}

/// Base64 of a byte sequence: full three-byte groups become four digits,
/// a trailing group of one or two bytes is padded with `=`.
pub open spec fn base64_of(bytes: Seq<u8>) -> Seq<char>
    decreases bytes.len(),
{
    if bytes.len() == 0 {
        Seq::empty()
    } else if bytes.len() == 1 {
        let b0 = bytes[0] as int;
        seq![b64_char(b0 / 4), b64_char((b0 % 4) * 16), '=', '=']
    } else if bytes.len() == 2 {
        let b0 = bytes[0] as int;
        let b1 = bytes[1] as int;
        seq![
            b64_char(b0 / 4),
            b64_char((b0 % 4) * 16 + b1 / 16),
            b64_char((b1 % 16) * 4),
            '=',
        ]
    } else {
        let b0 = bytes[0] as int;
        let b1 = bytes[1] as int;
        let b2 = bytes[2] as int;
        seq![
            b64_char(b0 / 4),
            b64_char((b0 % 4) * 16 + b1 / 16),
            b64_char((b1 % 16) * 4 + b2 / 64),
            b64_char(b2 % 64),
        ] + base64_of(bytes.skip(3))
    }
}

/// Encoding distributes over a split at a group boundary.
proof fn lemma_base64_append(s1: Seq<u8>, s2: Seq<u8>)
    requires
        s1.len() % 3 == 0,
    ensures
        base64_of(s1 + s2) == base64_of(s1) + base64_of(s2),
    decreases s1.len(),
{
    if s1.len() == 0 {
        assert(s1 + s2 =~= s2);
        assert(base64_of(s1) + base64_of(s2) =~= base64_of(s2));
    } else {
        let whole = s1 + s2;
        assert(whole.len() >= 3);
        assert(whole[0] == s1[0] && whole[1] == s1[1] && whole[2] == s1[2]);
        assert(whole.skip(3) =~= s1.skip(3) + s2);
        lemma_base64_append(s1.skip(3), s2);
        if s1.len() == 3 {
            assert(base64_of(s1.skip(3)) =~= Seq::<char>::empty());
        }
        assert(base64_of(s1 + s2) =~= base64_of(s1) + base64_of(s2));
    }
}

fn b64_digit(v: u8) -> (c: char)
    requires
        v < 64,
    ensures
        c == b64_char(v as int),
{
    if v < 26 {
        (65 + v) as char
    } else if v < 52 {
        (97 + (v - 26)) as char
    } else if v < 62 {
        (48 + (v - 52)) as char
    } else if v == 62 {
        '+'
    } else {
        '/'
    }
}

/// The base64 text of `bytes`, padded to a multiple of four digits.
pub fn base64_encode(bytes: &[u8]) -> (r: String)
    ensures
        r@ == base64_of(bytes@),
{
    let len = bytes.len();
    let mut out = String::new();
    let mut i: usize = 0;
    while len - i >= 3
        invariant
            i % 3 == 0,
            i <= len,
            len == bytes@.len(),
            out@ == base64_of(bytes@.take(i as int)),
        decreases len - i,
    {
        let b0 = bytes[i];
        let b1 = bytes[i + 1];
        let b2 = bytes[i + 2];
        push_char(&mut out, b64_digit(b0 / 4));
        push_char(&mut out, b64_digit((b0 % 4) * 16 + b1 / 16));
        push_char(&mut out, b64_digit((b1 % 16) * 4 + b2 / 64));
        push_char(&mut out, b64_digit(b2 % 64));
        proof {
            let prefix = bytes@.take(i as int);
            let group = bytes@.subrange(i as int, i as int + 3);
            assert(bytes@.take(i as int + 3) =~= prefix + group);
            lemma_base64_append(prefix, group);
            let g0 = group[0] as int;
            let g1 = group[1] as int;
            let g2 = group[2] as int;
            assert(g0 == b0 && g1 == b1 && g2 == b2);
            assert(group.skip(3) =~= Seq::<u8>::empty());
            assert(base64_of(group.skip(3)) == Seq::<char>::empty());
            assert(base64_of(group) == seq![
                b64_char(g0 / 4),
                b64_char((g0 % 4) * 16 + g1 / 16),
                b64_char((g1 % 16) * 4 + g2 / 64),
                b64_char(g2 % 64),
            ] + base64_of(group.skip(3)));
            assert(out@ =~= base64_of(bytes@.take(i as int + 3)));
        }
        i = i + 3;
    }
    proof {
        let prefix = bytes@.take(i as int);
        let tail = bytes@.subrange(i as int, len as int);
        assert(bytes@ =~= prefix + tail);
        lemma_base64_append(prefix, tail);
    }
    if len - i == 1 {
        let b0 = bytes[i];
        push_char(&mut out, b64_digit(b0 / 4));
        push_char(&mut out, b64_digit((b0 % 4) * 16));
        push_char(&mut out, '=');
        push_char(&mut out, '=');
        proof {
            let tail = bytes@.subrange(i as int, len as int);
            assert(tail.len() == 1 && tail[0] == bytes@[i as int]);
            assert(out@ =~= base64_of(bytes@));
        }
    } else if len - i == 2 {
        let b0 = bytes[i];
        let b1 = bytes[i + 1];
        push_char(&mut out, b64_digit(b0 / 4));
        push_char(&mut out, b64_digit((b0 % 4) * 16 + b1 / 16));
        push_char(&mut out, b64_digit((b1 % 16) * 4));
        push_char(&mut out, '=');
        proof {
            let tail = bytes@.subrange(i as int, len as int);
            assert(tail.len() == 2 && tail[0] == bytes@[i as int] && tail[1] == bytes@[i as int
                + 1]);
            assert(out@ =~= base64_of(bytes@));
        }
    } else {
        proof {
            let tail = bytes@.subrange(i as int, len as int);
            assert(tail.len() == 0);
            assert(base64_of(tail) =~= Seq::<char>::empty());
            assert(out@ =~= base64_of(bytes@));
        }
    }
    out
}

} // verus!
