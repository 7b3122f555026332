//! Byte-sequence building blocks shared by the protocol modules: appending,
//! hexadecimal rendering (used for the daemon's redacted audit line), and
//! JSON string escaping (used for the KBS request bodies).

use vstd::prelude::*;

verus! {

/// Appends every byte of `s` to `out`.
pub fn append_bytes(out: &mut Vec<u8>, s: &Vec<u8>)
    ensures
        final(out)@ == old(out)@ + s@,
{
    let mut i: usize = 0;
    while i < s.len()
        invariant
            i <= s.len(),
            out@ == old(out)@ + s@.subrange(0, i as int),
        decreases s.len() - i,
    {
        out.push(s[i]);
        i = i + 1;
        proof {
            assert(out@ =~= old(out)@ + s@.subrange(0, i as int));
        }
    }
    proof {
        assert(out@ =~= old(out)@ + s@);
    }
}

/// Compares two byte vectors for equality of contents.
pub fn bytes_eq(a: &Vec<u8>, b: &Vec<u8>) -> (r: bool)
    ensures
        r == (a@ == b@),
{
    if a.len() != b.len() {
        return false;
    }
    let mut i: usize = 0;
    while i < a.len()
        invariant
            i <= a.len(),
            a@.len() == b@.len(),
            forall|j: int| 0 <= j < i ==> a@[j] == b@[j],
        decreases a.len() - i,
    {
        if a[i] != b[i] {
            return false;
        }
        i = i + 1;
    }
    proof {
        assert(a@ =~= b@);
    }
    true
}

/// The lower-case hexadecimal digit for a value below sixteen.
pub open spec fn spec_hex_digit(d: u8) -> u8
    recommends
        d < 16,
{
    if d < 10 {
        ('0' as u8 + d) as u8
    } else {
        ('a' as u8 + (d - 10)) as u8
    }
}

fn hex_digit(d: u8) -> (r: u8)
    requires
        d < 16,
    ensures
        r == spec_hex_digit(d),
{
    if d < 10 {
        '0' as u8 + d
    } else {
        'a' as u8 + (d - 10)
    }
}

/// Two lower-case hexadecimal digits for one byte.
pub open spec fn spec_hex_byte(b: u8) -> Seq<u8> {
    seq![spec_hex_digit(b / 16), spec_hex_digit(b % 16)]
}

/// Lower-case hexadecimal rendering of a byte sequence, high digit first.
pub open spec fn spec_hex(s: Seq<u8>) -> Seq<u8>
    decreases s.len(),
{
    if s.len() == 0 {
        Seq::empty()
    } else {
        spec_hex(s.drop_last()) + spec_hex_byte(s.last())
    }
}

/// Renders `s` as lower-case hexadecimal, two digits per byte.
pub fn hex_of(s: &Vec<u8>) -> (r: Vec<u8>)
    ensures
        r@ == spec_hex(s@),
{
    let mut out: Vec<u8> = Vec::new();
    let mut i: usize = 0;
    while i < s.len()
        invariant
            i <= s.len(),
            out@ == spec_hex(s@.subrange(0, i as int)),
        decreases s.len() - i,
    {
        out.push(hex_digit(s[i] / 16));
        out.push(hex_digit(s[i] % 16));
        i = i + 1;
        proof {
            assert(s@.subrange(0, i as int).drop_last() =~= s@.subrange(0, i - 1));
            assert(s@.subrange(0, i as int).last() == s@[i - 1]);
        }
    }
    proof {
        assert(s@.subrange(0, s@.len() as int) =~= s@);
    }
    out
}

/// The JSON escape of one byte of a string: quote and backslash get a
/// backslash, control bytes become a `\u00XX` sequence, all else passes.
pub open spec fn spec_json_escaped_byte(b: u8) -> Seq<u8> {
    if b == '"' as u8 {
        seq!['\\' as u8, '"' as u8]
    } else if b == '\\' as u8 {
        seq!['\\' as u8, '\\' as u8]
    } else if b < 32 {
        seq!['\\' as u8, 'u' as u8, '0' as u8, '0' as u8] + spec_hex_byte(b)
    } else {
        seq![b]
    }
}

/// The JSON escape of a whole string body.
pub open spec fn spec_json_escaped(s: Seq<u8>) -> Seq<u8>
    decreases s.len(),
{
    if s.len() == 0 {
        Seq::empty()
    } else {
        spec_json_escaped(s.drop_last()) + spec_json_escaped_byte(s.last())
    }
}

/// Appends the JSON escape of `s` to `out` (no surrounding quotes).
pub fn append_json_escaped(out: &mut Vec<u8>, s: &Vec<u8>)
    ensures
        final(out)@ == old(out)@ + spec_json_escaped(s@),
{
    let mut i: usize = 0;
    while i < s.len()
        invariant
            i <= s.len(),
            out@ == old(out)@ + spec_json_escaped(s@.subrange(0, i as int)),
        decreases s.len() - i,
    {
        let b = s[i];
        if b == '"' as u8 {
            out.push('\\' as u8);
            out.push('"' as u8);
        } else if b == '\\' as u8 {
            out.push('\\' as u8);
            out.push('\\' as u8);
        } else if b < 32 {
            out.push('\\' as u8);
            out.push('u' as u8);
            out.push('0' as u8);
            out.push('0' as u8);
            out.push(hex_digit(b / 16));
            out.push(hex_digit(b % 16));
        } else {
            out.push(b);
        }
        i = i + 1;
        proof {
            assert(s@.subrange(0, i as int).drop_last() =~= s@.subrange(0, i - 1));
            assert(s@.subrange(0, i as int).last() == s@[i - 1]);
            assert(out@ =~= old(out)@ + spec_json_escaped(s@.subrange(0, i as int)));
        }
    }
    proof {
        assert(s@.subrange(0, s@.len() as int) =~= s@);
    }
}

/// A quoted, escaped JSON string literal for `s`.
pub open spec fn spec_json_string(s: Seq<u8>) -> Seq<u8> {
    seq!['"' as u8] + spec_json_escaped(s) + seq!['"' as u8]
}

/// Appends `s` as a quoted, escaped JSON string.
pub fn append_json_string(out: &mut Vec<u8>, s: &Vec<u8>)
    ensures
        final(out)@ == old(out)@ + spec_json_string(s@),
{
    out.push('"' as u8);
    append_json_escaped(out, s);
    out.push('"' as u8);
    proof {
        assert(out@ =~= old(out)@ + spec_json_string(s@));
    }
}

} // verus!
