//! Base64url encoding without padding, as used by the compact token
//! serialization: the URL-safe alphabet `A`-`Z`, `a`-`z`, `0`-`9`, `-`,
//! `_`, with no `=` padding.

use vstd::prelude::*;

use crate::ascii::all_ascii;

verus! {

/// The ASCII byte of the base64url alphabet character for a 6-bit value.
pub open spec fn b64url_char(v: u8) -> u8
    recommends
        v < 64,
{
    if v < 26 {
        (0x41 + v) as u8
    } else if v < 52 {
        (0x47 + v) as u8
    } else if v < 62 {
        (v - 0x04) as u8
    } else if v == 62 {
        0x2du8
    } else {
        0x5fu8
    }
}

/// The base64url encoding of a byte sequence, processed in groups of
/// three bytes; a final group of one or two bytes yields two or three
/// characters and no padding.
pub open spec fn base64url(s: Seq<u8>) -> Seq<u8>
    decreases s.len(),
{
    if s.len() == 0 {
        Seq::empty()
    } else if s.len() == 1 {
        let b0 = s[0];
        seq![b64url_char(b0 / 4), b64url_char(((b0 % 4) * 16) as u8)]
    } else if s.len() == 2 {
        let b0 = s[0];
        let b1 = s[1];
        seq![
            b64url_char(b0 / 4),
            b64url_char(((b0 % 4) * 16 + b1 / 16) as u8),
            b64url_char(((b1 % 16) * 4) as u8),
        ]
    } else {
        let b0 = s[0];
        let b1 = s[1];
        let b2 = s[2];
        seq![
            b64url_char(b0 / 4),
            b64url_char(((b0 % 4) * 16 + b1 / 16) as u8),
            b64url_char(((b1 % 16) * 4 + b2 / 64) as u8),
            b64url_char(b2 % 64),
        ] + base64url(s.skip(3))
    }
}

/// Computes the base64url alphabet character for a 6-bit value.
fn b64_char(v: u8) -> (r: u8)
    requires
        v < 64,
    ensures
        r == b64url_char(v),
        r < 0x80,
{
    if v < 26 {
        0x41 + v
    } else if v < 52 {
        0x47 + v
    } else if v < 62 {
        v - 0x04
    } else if v == 62 {
        0x2d
    } else {
        0x5f
    }
}

/// Computes the base64url encoding of a byte slice, without padding.
/// Every byte of the result is ASCII.
pub fn base64url_encode(src: &[u8]) -> (r: Vec<u8>)
    ensures
        r@ == base64url(src@),
        all_ascii(r@),
{
    let mut out: Vec<u8> = Vec::new();
    let mut i: usize = 0;
    proof {
        assert(src@.skip(0) =~= src@);
    }
    while src.len() - i >= 3
        invariant
            i <= src@.len(),
            out@ + base64url(src@.skip(i as int)) =~= base64url(src@),
            all_ascii(out@),
        decreases src@.len() - i,
    {
        let b0 = src[i];
        let b1 = src[i + 1];
        let b2 = src[i + 2];
        out.push(b64_char(b0 / 4));
        out.push(b64_char((b0 % 4) * 16 + b1 / 16));
        out.push(b64_char((b1 % 16) * 4 + b2 / 64));
        out.push(b64_char(b2 % 64));
        proof {
            let tail = src@.skip(i as int);
            assert(tail[0] == b0);
            assert(tail[1] == b1);
            assert(tail[2] == b2);
            assert(tail.skip(3) =~= src@.skip(i + 3));
            assert(out@ + base64url(src@.skip(i + 3)) =~= base64url(src@));
        }
        i = i + 3;
    }
    if src.len() - i == 1 {
        let b0 = src[i];
        out.push(b64_char(b0 / 4));
        out.push(b64_char((b0 % 4) * 16));
        proof {
            let tail = src@.skip(i as int);
            assert(tail.len() == 1);
            assert(tail[0] == b0);
        }
    } else if src.len() - i == 2 {
        let b0 = src[i];
        let b1 = src[i + 1];
        out.push(b64_char(b0 / 4));
        out.push(b64_char((b0 % 4) * 16 + b1 / 16));
        out.push(b64_char((b1 % 16) * 4));
        proof {
            let tail = src@.skip(i as int);
            assert(tail.len() == 2);
            assert(tail[0] == b0);
            assert(tail[1] == b1);
        }
    } else {
        proof {
            assert(src@.skip(i as int).len() == 0);
        }
    }
    proof {
        assert(out@ =~= base64url(src@));
    }
    out
}

} // verus!
