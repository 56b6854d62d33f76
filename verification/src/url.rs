//! Percent-encoding of query-string values. The RFC 3986 unreserved bytes
//! (ASCII letters and digits, `-`, `_`, `.`, `~`) pass through; every other
//! byte of the UTF-8 encoding becomes `%XX` with upper-case hex digits.

use vstd::prelude::*;
use crate::decimal::digit_char;
use crate::text::push_char;

verus! {

/// Whether the byte `b` is in the RFC 3986 unreserved set.
pub open spec fn is_unreserved(b: u8) -> bool {
    ||| 0x30 <= b <= 0x39
    ||| 0x41 <= b <= 0x5A
    ||| 0x61 <= b <= 0x7A
    ||| b == 0x2D
    ||| b == 0x5F
    ||| b == 0x2E
    ||| b == 0x7E
}

/// The upper-case hexadecimal digit for `d` (`0 <= d < 16`).
pub open spec fn hex_upper(d: int) -> char {
    if d < 10 {
        digit_char(d)
    } else {
        ((d + 55) as u8) as char
    }
}

/// How one byte is written in an encoded value.
pub open spec fn encode_byte(b: u8) -> Seq<char> {
    if is_unreserved(b) {
        seq![b as char]
    } else {
        seq!['%', hex_upper(b as int / 16), hex_upper(b as int % 16)]
    }
}

/// The encoding of a byte string: each byte encoded in turn.
pub open spec fn encode_bytes(bs: Seq<u8>) -> Seq<char>
    decreases bs.len(),
{
    if bs.len() == 0 {
        Seq::empty()
    } else {
        encode_bytes(bs.drop_last()) + encode_byte(bs.last())
    }
}

/// The characters an encoded value is made of: unreserved ones, `%`, and the
/// upper-case hex digits.
pub open spec fn is_encoded_char(c: char) -> bool {
    ||| c == '%'
    ||| ('0' <= c <= '9')
    ||| ('A' <= c <= 'Z')
    ||| ('a' <= c <= 'z')
    ||| c == '-'
    ||| c == '_'
    ||| c == '.'
    ||| c == '~'
}

proof fn lemma_encoded_chars(bs: Seq<u8>)
    ensures
        forall|i: int|
            0 <= i < encode_bytes(bs).len() ==> is_encoded_char(#[trigger] encode_bytes(bs)[i]),
    decreases bs.len(),
{
    if bs.len() > 0 {
        lemma_encoded_chars(bs.drop_last());
        let b = bs.last();
        let e = encode_byte(b);
        assert forall|i: int| 0 <= i < e.len() implies is_encoded_char(#[trigger] e[i]) by {
            if !is_unreserved(b) {
                assert(0 <= b as int / 16 < 16);
                assert(0 <= b as int % 16 < 16);
            }
        }
        let p = encode_bytes(bs.drop_last());
        assert forall|i: int|
            0 <= i < encode_bytes(bs).len() implies is_encoded_char(
                #[trigger] encode_bytes(bs)[i],
            ) by {
            if i < p.len() {
                assert(encode_bytes(bs)[i] == p[i]);
            } else {
                assert(encode_bytes(bs)[i] == e[i - p.len()]);
            }
        }
    }
}

fn hex_digit(d: u8) -> (c: char)
    requires
        d < 16,
    ensures
        c == hex_upper(d as int),
{
    if d < 10 {
        (d + 48) as char
    } else {
        (d + 55) as char
    }
}

/// `s` percent-encoded for use as a query-string value.
pub fn urlencode(s: &str) -> (r: String)
    ensures
        r@ == encode_bytes(vstd::utf8::encode_utf8(s@)),
        forall|i: int| 0 <= i < r@.len() ==> is_encoded_char(#[trigger] r@[i]),
{
    let bytes = s.as_bytes();
    let mut out = String::new();
    let mut i: usize = 0;
    while i < bytes.len()
        invariant
            bytes@ == vstd::utf8::encode_utf8(s@),
            i <= bytes@.len(),
            out@ == encode_bytes(bytes@.subrange(0, i as int)),
        decreases bytes.len() - i,
    {
        let b = bytes[i];
        let ghost before = out@;
        if (0x30 <= b && b <= 0x39) || (0x41 <= b && b <= 0x5A) || (0x61 <= b && b <= 0x7A) || b
            == 0x2D || b == 0x5F || b == 0x2E || b == 0x7E {
            push_char(&mut out, b as char);
        } else {
            push_char(&mut out, '%');
            push_char(&mut out, hex_digit(b / 16));
            push_char(&mut out, hex_digit(b % 16));
        }
        proof {
            let p = bytes@.subrange(0, i + 1);
            assert(p.drop_last() =~= bytes@.subrange(0, i as int));
            assert(p.last() == b);
            assert(out@ =~= before + encode_byte(b));
        }
        i = i + 1;
    }
    proof {
        assert(bytes@.subrange(0, bytes@.len() as int) =~= bytes@);
        lemma_encoded_chars(vstd::utf8::encode_utf8(s@));
    }
    out
}

/// The value of an upper-case hexadecimal digit.
pub open spec fn hex_value(c: char) -> int {
    if '0' <= c <= '9' {
        c as int - 48
    } else {
        c as int - 55
    }
}

/// Reading an encoded value back into bytes: `%XY` gives the byte `XY`,
/// any other character its own code.
pub open spec fn decode_percent(cs: Seq<char>) -> Seq<u8>
    decreases cs.len(),
{
    if cs.len() == 0 {
        Seq::empty()
    } else if cs.len() >= 3 && cs[cs.len() - 3] == '%' {
        decode_percent(cs.subrange(0, cs.len() - 3)).push(
            (hex_value(cs[cs.len() - 2]) * 16 + hex_value(cs[cs.len() - 1])) as u8,
        )
    } else {
        decode_percent(cs.drop_last()).push(cs.last() as u8)
    }
}

proof fn lemma_percent_has_two_digits(bs: Seq<u8>)
    ensures
        forall|i: int|
            0 <= i < encode_bytes(bs).len() && #[trigger] encode_bytes(bs)[i] == '%' ==> i + 2
                < encode_bytes(bs).len(),
    decreases bs.len(),
{
    if bs.len() > 0 {
        lemma_percent_has_two_digits(bs.drop_last());
        let p = encode_bytes(bs.drop_last());
        let b = bs.last();
        let e = encode_bytes(bs);
        assert forall|i: int| 0 <= i < e.len() && #[trigger] e[i] == '%' implies i + 2 < e.len() by {
            if i < p.len() {
                assert(e[i] == p[i]);
            } else if is_unreserved(b) {
                assert(e[i] == b as char);
            } else {
                assert(0 <= b as int / 16 < 16);
                assert(0 <= b as int % 16 < 16);
                if i > p.len() {
                    assert(e[i] != '%');
                }
            }
        }
    }
}

proof fn lemma_hex_round_trip(d: int)
    requires
        0 <= d < 16,
    ensures
        hex_value(hex_upper(d)) == d,
{
}

proof fn lemma_decode_encode(bs: Seq<u8>)
    ensures
        decode_percent(encode_bytes(bs)) == bs,
    decreases bs.len(),
{
    if bs.len() > 0 {
        lemma_decode_encode(bs.drop_last());
        lemma_percent_has_two_digits(bs.drop_last());
        let p = encode_bytes(bs.drop_last());
        let b = bs.last();
        let e = encode_bytes(bs);
        if is_unreserved(b) {
            if e.len() >= 3 {
                assert(e[e.len() - 3] == p[p.len() - 2]);
                if p[p.len() - 2] == '%' {
                    assert(p.len() - 2 + 2 < p.len());
                }
            }
            assert(e.drop_last() =~= p);
            assert(bs.drop_last().push(b) =~= bs);
        } else {
            lemma_hex_round_trip(b as int / 16);
            lemma_hex_round_trip(b as int % 16);
            assert(e.subrange(0, e.len() - 3) =~= p);
            assert(e[e.len() - 3] == '%');
            assert(bs.drop_last().push(b) =~= bs);
        }
    }
}

/// Percent-encoding loses nothing: reading an encoded value back gives the
/// UTF-8 bytes of the input text, so two different values never encode alike.
pub proof fn urlencode_is_reversible(a: Seq<char>, b: Seq<char>)
    ensures
        decode_percent(encode_bytes(vstd::utf8::encode_utf8(a))) == vstd::utf8::encode_utf8(a),
        encode_bytes(vstd::utf8::encode_utf8(a)) == encode_bytes(vstd::utf8::encode_utf8(b)) ==> a
            == b,
{
    lemma_decode_encode(vstd::utf8::encode_utf8(a));
    lemma_decode_encode(vstd::utf8::encode_utf8(b));
    vstd::utf8::encode_utf8_decode_utf8(a);
    vstd::utf8::encode_utf8_decode_utf8(b);
}

} // verus!
