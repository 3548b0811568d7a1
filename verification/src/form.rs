//! The `application/x-www-form-urlencoded` byte serializer.
//!
//! A list of name/value fields is rendered as `name=value` pairs joined by
//! `&`, where names and values are escaped by the form-urlencoded byte
//! serializer: ASCII alphanumerics and `*`, `-`, `.`, `_` are kept, a space
//! becomes `+`, and every other byte becomes `%` followed by two uppercase
//! hexadecimal digits.

use vstd::prelude::*;

use crate::ascii::{all_ascii, hex_upper, hex_upper_digit, push_bytes};

verus! {

/// True when the form-urlencoded serializer keeps this byte unchanged.
pub open spec fn form_unreserved(b: u8) -> bool {
    (0x30 <= b <= 0x39) || (0x41 <= b <= 0x5a) || (0x61 <= b <= 0x7a) || b == 0x2a || b == 0x2d
        || b == 0x2e || b == 0x5f
}

/// The escaping of a single byte: kept, turned into `+`, or
/// percent-encoded with uppercase hexadecimal digits.
pub open spec fn form_escape_byte(b: u8) -> Seq<u8> {
    if form_unreserved(b) {
        seq![b]
    } else if b == 0x20 {
        seq![0x2bu8]
    } else {
        seq![0x25u8, hex_upper_digit(b / 16), hex_upper_digit(b % 16)]
    }
}

/// The form-urlencoded escaping of a whole byte sequence: the escapings
/// of its bytes, concatenated in order.
pub open spec fn form_escape(s: Seq<u8>) -> Seq<u8>
    decreases s.len(),
{
    if s.len() == 0 {
        Seq::empty()
    } else {
        form_escape(s.drop_last()) + form_escape_byte(s.last())
    }
}

/// The wire rendering `name=value` of one field, both sides escaped.
pub open spec fn render_field(f: (Seq<u8>, Seq<u8>)) -> Seq<u8> {
    form_escape(f.0) + seq![0x3du8] + form_escape(f.1)
}

/// The wire rendering of an ordered field list: the rendered fields
/// joined by `&`.
pub open spec fn render_fields(fs: Seq<(Seq<u8>, Seq<u8>)>) -> Seq<u8>
    decreases fs.len(),
{
    if fs.len() == 0 {
        Seq::empty()
    } else if fs.len() == 1 {
        render_field(fs[0])
    } else {
        render_fields(fs.drop_last()) + seq![0x26u8] + render_field(fs.last())
    }
}

/// Appending a field to a non-empty field list appends `&` and the
/// rendered field; to an empty list, just the rendered field.
pub proof fn lemma_render_fields_snoc(fs: Seq<(Seq<u8>, Seq<u8>)>, f: (Seq<u8>, Seq<u8>))
    ensures
        fs.len() == 0 ==> render_fields(fs.push(f)) == render_field(f),
        fs.len() > 0 ==> render_fields(fs.push(f)) == render_fields(fs) + seq![0x26u8]
            + render_field(f),
{
    if fs.len() == 0 {
        assert(render_fields(fs.push(f)) == render_field(fs.push(f)[0]));
        assert(fs.push(f)[0] == f);
    } else {
        assert(fs.push(f).drop_last() =~= fs);
        assert(fs.push(f).last() == f);
    }
}

/// Computes the form-urlencoded escaping of a byte slice. Every byte of
/// the result is ASCII, whatever the input was.
pub fn form_escape_bytes(src: &[u8]) -> (r: Vec<u8>)
    ensures
        r@ == form_escape(src@),
        all_ascii(r@),
{
    let mut out: Vec<u8> = Vec::new();
    let mut i: usize = 0;
    while i < src.len()
        invariant
            i <= src@.len(),
            out@ == form_escape(src@.take(i as int)),
            all_ascii(out@),
        decreases src@.len() - i,
    {
        let b = src[i];
        if (0x30 <= b && b <= 0x39) || (0x41 <= b && b <= 0x5a) || (0x61 <= b && b <= 0x7a) || b
            == 0x2a || b == 0x2d || b == 0x2e || b == 0x5f {
            out.push(b);
        } else if b == 0x20 {
            out.push(0x2b);
        } else {
            out.push(0x25);
            out.push(hex_upper(b / 16));
            out.push(hex_upper(b % 16));
        }
        proof {
            assert(src@.take(i + 1).drop_last() =~= src@.take(i as int));
            assert(src@.take(i + 1).last() == b);
            assert(out@ =~= form_escape(src@.take(i + 1)));
        }
        i = i + 1;
    }
    proof {
        assert(src@.take(src@.len() as int) =~= src@);
    }
    out
}

/// Appends one rendered field to an encoded body, preceded by `&` when
/// `separator` is set. Appends only ASCII bytes.
pub fn append_field(out: &mut Vec<u8>, separator: bool, name: &[u8], value: &[u8])
    ensures
        final(out)@ == old(out)@ + (if separator {
            seq![0x26u8]
        } else {
            Seq::<u8>::empty()
        }) + render_field((name@, value@)),
        all_ascii(old(out)@) ==> all_ascii(final(out)@),
{
    if separator {
        out.push(0x26);
    }
    let escaped_name = form_escape_bytes(name);
    push_bytes(out, escaped_name.as_slice());
    out.push(0x3d);
    let escaped_value = form_escape_bytes(value);
    push_bytes(out, escaped_value.as_slice());
    proof {
        assert(out@ =~= old(out)@ + (if separator {
            seq![0x26u8]
        } else {
            Seq::<u8>::empty()
        }) + render_field((name@, value@)));
    }
}

} // verus!
