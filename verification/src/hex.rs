//! Hex strings, as bytes: decoding client-supplied hex (with an optional
//! `0x` prefix) and encoding binary results as lowercase hex.

use vstd::prelude::*;

verus! {

/// `c` is an ASCII hex digit.
pub open spec fn spec_is_hex_digit(c: u8) -> bool {
    (48 <= c <= 57) || (97 <= c <= 102) || (65 <= c <= 70)
}

/// The value of an ASCII hex digit.
pub open spec fn spec_hex_val(c: u8) -> u8 {
    if 48 <= c <= 57 {
        (c - 48) as u8
    } else if 97 <= c <= 102 {
        (c - 87) as u8
    } else {
        (c - 55) as u8
    }
}

/// The lowercase ASCII hex digit of a value below 16.
pub open spec fn spec_hex_char(n: u8) -> u8 {
    if n < 10 {
        (48 + n) as u8
    } else {
        (87 + n) as u8
    }
}

/// The input without a leading `0x`, if it carries one.
pub open spec fn spec_strip_0x(s: Seq<u8>) -> Seq<u8> {
    if s.len() >= 2 && s[0] == 48 && s[1] == 120 {
        s.skip(2)
    } else {
        s
    }
}

/// All characters are hex digits.
pub open spec fn spec_all_hex_digits(s: Seq<u8>) -> bool {
    forall|i: int| 0 <= i < s.len() ==> spec_is_hex_digit(#[trigger] s[i])
}

/// The bytes read from a well-formed hex string of even length.
pub open spec fn spec_hex_decoded(s: Seq<u8>) -> Seq<u8> {
    Seq::new(s.len() / 2, |i: int| (spec_hex_val(s[2 * i]) * 16 + spec_hex_val(s[2 * i + 1])) as u8)
}

/// The lowercase hex encoding of a byte sequence: two digits per byte.
pub open spec fn spec_hex_encoded(b: Seq<u8>) -> Seq<u8> {
    Seq::new(
        2 * b.len(),
        |i: int|
            if i % 2 == 0 {
                spec_hex_char(b[i / 2] >> 4)
            } else {
                spec_hex_char(b[i / 2] & 0x0f)
            },
    )
}

fn is_hex_digit(c: u8) -> (r: bool)
    ensures
        r == spec_is_hex_digit(c),
{
    (48 <= c && c <= 57) || (97 <= c && c <= 102) || (65 <= c && c <= 70)
}

fn hex_val(c: u8) -> (r: u8)
    requires
        spec_is_hex_digit(c),
    ensures
        r == spec_hex_val(c),
        r < 16,
{
    if 48 <= c && c <= 57 {
        c - 48
    } else if 97 <= c && c <= 102 {
        c - 87
    } else {
        c - 55
    }
}

fn hex_char(n: u8) -> (r: u8)
    requires
        n < 16,
    ensures
        r == spec_hex_char(n),
{
    if n < 10 {
        48 + n
    } else {
        87 + n
    }
}

/// Decode a hex string (given as ASCII bytes, with an optional `0x`
/// prefix).  Succeeds exactly when, after the prefix, the length is even
/// and every character is a hex digit.
pub fn decode_hex(s: &Vec<u8>) -> (r: Option<Vec<u8>>)
    ensures
        r is Some <==> (spec_strip_0x(s@).len() % 2 == 0 && spec_all_hex_digits(spec_strip_0x(s@))),
        r matches Some(v) ==> v@ == spec_hex_decoded(spec_strip_0x(s@)),
{
    let start: usize = if s.len() >= 2 && s[0] == 48 && s[1] == 120 {
        2
    } else {
        0
    };
    proof {
        assert(spec_strip_0x(s@) =~= s@.skip(start as int));
    }
    let len = s.len() - start;
    if len % 2 != 0 {
        return None;
    }
    let n = len / 2;
    let mut out: Vec<u8> = Vec::new();
    let mut i: usize = 0;
    while i < n
        invariant
            s@.len() <= usize::MAX,
            start + 2 * n == s@.len(),
            spec_strip_0x(s@) == s@.skip(start as int),
            i <= n,
            out@.len() == i,
            forall|j: int|
                0 <= j < 2 * i ==> spec_is_hex_digit(#[trigger] s@.skip(start as int)[j]),
            forall|j: int|
                0 <= j < i ==> out@[j] == (spec_hex_val(s@.skip(start as int)[2 * j]) * 16
                    + spec_hex_val(s@.skip(start as int)[2 * j + 1])) as u8,
        decreases n - i,
    {
        let hi = s[start + 2 * i];
        let lo = s[start + 2 * i + 1];
        if !is_hex_digit(hi) || !is_hex_digit(lo) {
            proof {
                assert(!spec_is_hex_digit(s@.skip(start as int)[2 * i as int])
                    || !spec_is_hex_digit(s@.skip(start as int)[2 * i as int + 1]));
            }
            return None;
        }
        out.push(hex_val(hi) * 16 + hex_val(lo));
        i = i + 1;
    }
    proof {
        assert(out@ =~= spec_hex_decoded(spec_strip_0x(s@)));
        assert forall|j: int| 0 <= j < spec_strip_0x(s@).len() implies spec_is_hex_digit(
            #[trigger] spec_strip_0x(s@)[j],
        ) by {
            assert(spec_strip_0x(s@)[j] == s@.skip(start as int)[j]);
        }
    }
    Some(out)
}

/// Encode bytes as lowercase hex, two digits per byte.
pub fn encode_hex(bytes: &Vec<u8>) -> (r: Vec<u8>)
    ensures
        r@ == spec_hex_encoded(bytes@),
{
    let n = bytes.len();
    let mut out: Vec<u8> = Vec::new();
    let mut i: usize = 0;
    while i < n
        invariant
            n == bytes@.len(),
            i <= n,
            out@.len() == 2 * i,
            forall|j: int| 0 <= j < 2 * i ==> out@[j] == spec_hex_encoded(bytes@)[j],
        decreases n - i,
    {
        let b = bytes[i];
        proof {
            assert(b >> 4 < 16 && b & 0x0f < 16) by (bit_vector);
        }
        out.push(hex_char(b >> 4));
        out.push(hex_char(b & 0x0f));
        i = i + 1;
        proof {
            assert(spec_hex_encoded(bytes@)[2 * (i - 1)] == spec_hex_char(b >> 4));
            assert(spec_hex_encoded(bytes@)[2 * (i - 1) + 1] == spec_hex_char(b & 0x0f));
        }
    }
    proof {
        assert(out@ =~= spec_hex_encoded(bytes@));
    }
    out
}

/// Law: decoding the hex encoding of any byte sequence yields the bytes
/// again.
pub proof fn lemma_hex_round_trip(b: Seq<u8>)
    ensures
        spec_strip_0x(spec_hex_encoded(b)).len() % 2 == 0,
        spec_all_hex_digits(spec_strip_0x(spec_hex_encoded(b))),
        spec_hex_decoded(spec_strip_0x(spec_hex_encoded(b))) == b,
{
    let e = spec_hex_encoded(b);
    assert forall|i: int| 0 <= i < e.len() implies spec_is_hex_digit(#[trigger] e[i]) by {
        let x = b[i / 2];
        assert(x >> 4 < 16 && x & 0x0f < 16) by (bit_vector);
    }
    assert(e.len() == 2 * b.len());
    if e.len() >= 2 {
        assert(!spec_is_hex_digit(120u8));
        assert(e[1] != 120);
    }
    assert(spec_strip_0x(e) =~= e);
    assert forall|i: int| 0 <= i < b.len() implies spec_hex_decoded(e)[i] == b[i] by {
        let x = b[i];
        assert(e[2 * i] == spec_hex_char(x >> 4));
        assert(e[2 * i + 1] == spec_hex_char(x & 0x0f));
        assert(x >> 4 < 16 && x & 0x0f < 16) by (bit_vector);
        assert(spec_hex_val(spec_hex_char(x >> 4)) == x >> 4);
        assert(spec_hex_val(spec_hex_char(x & 0x0f)) == x & 0x0f);
        assert((x >> 4) * 16 + (x & 0x0f) == x) by (bit_vector);
    }
    assert(spec_hex_decoded(e) =~= b);
}

} // verus!
