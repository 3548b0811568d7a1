//! The fragment of compact JSON serialization the token claims need:
//! string escaping and unsigned decimal numbers, over UTF-8 bytes.
//!
//! A JSON string escapes `"`, `\` and the control bytes below 0x20
//! (`\b`, `\t`, `\n`, `\f`, `\r`, else `\u00` and two lowercase
//! hexadecimal digits); all other bytes pass through verbatim.

use vstd::prelude::*;

verus! {

/// The ASCII byte of the lowercase hexadecimal digit for a value below
/// 16.
pub open spec fn hex_lower_digit(v: u8) -> u8
    recommends
        v < 16,
{
    if v < 10 {
        (0x30 + v) as u8
    } else {
        (0x57 + v) as u8
    }
}

/// The escaping of one byte inside a JSON string.
pub open spec fn json_escape_byte(b: u8) -> Seq<u8> {
    if b == 0x22 {
        seq![0x5cu8, 0x22u8]
    } else if b == 0x5c {
        seq![0x5cu8, 0x5cu8]
    } else if b == 0x08 {
        seq![0x5cu8, 0x62u8]
    } else if b == 0x09 {
        seq![0x5cu8, 0x74u8]
    } else if b == 0x0a {
        seq![0x5cu8, 0x6eu8]
    } else if b == 0x0c {
        seq![0x5cu8, 0x66u8]
    } else if b == 0x0d {
        seq![0x5cu8, 0x72u8]
    } else if b < 0x20 {
        seq![0x5cu8, 0x75u8, 0x30u8, 0x30u8, hex_lower_digit(b / 16), hex_lower_digit(b % 16)]
    } else {
        seq![b]
    }
}

/// The escaped body of a JSON string: the escapings of its bytes,
/// concatenated in order.
pub open spec fn json_escape(s: Seq<u8>) -> Seq<u8>
    decreases s.len(),
{
    if s.len() == 0 {
        Seq::empty()
    } else {
        json_escape(s.drop_last()) + json_escape_byte(s.last())
    }
}

/// A whole JSON string: the escaped body between double quotes.
pub open spec fn json_string(s: Seq<u8>) -> Seq<u8> {
    seq![0x22u8] + json_escape(s) + seq![0x22u8]
}

/// The decimal digits of a non-negative number, most significant first.
pub open spec fn dec_digits(n: nat) -> Seq<u8>
    decreases n,
{
    if n < 10 {
        seq![(0x30 + n) as u8]
    } else {
        dec_digits(n / 10) + seq![(0x30 + n % 10) as u8]
    }
}

/// Computes the lowercase hexadecimal digit for a nibble.
fn hex_lower(v: u8) -> (r: u8)
    requires
        v < 16,
    ensures
        r == hex_lower_digit(v),
{
    if v < 10 {
        0x30 + v
    } else {
        0x57 + v
    }
}

/// Appends the escaped body of the JSON string for `src` to `out`.
pub fn push_json_escaped(out: &mut Vec<u8>, src: &[u8])
    ensures
        final(out)@ == old(out)@ + json_escape(src@),
{
    let mut i: usize = 0;
    while i < src.len()
        invariant
            i <= src@.len(),
            out@ == old(out)@ + json_escape(src@.take(i as int)),
        decreases src@.len() - i,
    {
        let b = src[i];
        if b == 0x22 {
            out.push(0x5c);
            out.push(0x22);
        } else if b == 0x5c {
            out.push(0x5c);
            out.push(0x5c);
        } else if b == 0x08 {
            out.push(0x5c);
            out.push(0x62);
        } else if b == 0x09 {
            out.push(0x5c);
            out.push(0x74);
        } else if b == 0x0a {
            out.push(0x5c);
            out.push(0x6e);
        } else if b == 0x0c {
            out.push(0x5c);
            out.push(0x66);
        } else if b == 0x0d {
            out.push(0x5c);
            out.push(0x72);
        } else if b < 0x20 {
            out.push(0x5c);
            out.push(0x75);
            out.push(0x30);
            out.push(0x30);
            out.push(hex_lower(b / 16));
            out.push(hex_lower(b % 16));
        } else {
            out.push(b);
        }
        proof {
            assert(src@.take(i + 1).drop_last() =~= src@.take(i as int));
            assert(src@.take(i + 1).last() == b);
            assert(out@ =~= old(out)@ + json_escape(src@.take(i + 1)));
        }
        i = i + 1;
    }
    proof {
        assert(src@.take(src@.len() as int) =~= src@);
    }
}

/// Appends the whole JSON string for `src` to `out`: the escaped body
/// between double quotes.
pub fn push_json_string(out: &mut Vec<u8>, src: &[u8])
    ensures
        final(out)@ == old(out)@ + json_string(src@),
{
    out.push(0x22);
    push_json_escaped(out, src);
    out.push(0x22);
    proof {
        assert(out@ =~= old(out)@ + json_string(src@));
    }
}

/// Appends the decimal digits of `n` to `out`, most significant first.
pub fn push_decimal(out: &mut Vec<u8>, n: u64)
    ensures
        final(out)@ == old(out)@ + dec_digits(n as nat),
    decreases n,
{
    if n < 10 {
        out.push(0x30 + (n as u8));
    } else {
        push_decimal(out, n / 10);
        out.push(0x30 + ((n % 10) as u8));
        proof {
            assert(out@ =~= old(out)@ + dec_digits(n as nat));
        }
    }
}

} // verus!
