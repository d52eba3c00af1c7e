use vstd::prelude::*;

use crate::errors::VerifyError;

verus! {

/// A hex digit: 0-9, a-f, A-F.
pub open spec fn spec_is_hex_digit(c: char) -> bool {
    ('0' <= c && c <= '9') || ('a' <= c && c <= 'f') || ('A' <= c && c <= 'F')
}

/// The numeric value of a hex digit.
pub open spec fn spec_hex_val(c: char) -> int
    recommends
        spec_is_hex_digit(c),
{
    if '0' <= c && c <= '9' {
        c as int - '0' as int
    } else if 'a' <= c && c <= 'f' {
        c as int - 'a' as int + 10
    } else if 'A' <= c && c <= 'F' {
        c as int - 'A' as int + 10
    } else {
        0
    }
}

/// A well-formed hex string: an even number of hex digits.
pub open spec fn spec_valid_hex(s: Seq<char>) -> bool {
    s.len() % 2 == 0 && (forall|i: int| 0 <= i < s.len() ==> spec_is_hex_digit(s[i]))
}

/// The bytes a well-formed hex string stands for, high digit first.
pub open spec fn spec_hex_decoded(s: Seq<char>) -> Seq<u8>
    recommends
        spec_valid_hex(s),
{
    Seq::new(s.len() / 2, |i: int| (spec_hex_val(s[2 * i]) * 16 + spec_hex_val(s[2 * i + 1])) as u8)
}

/// The lowercase hex digit for a value below sixteen.
pub open spec fn spec_hex_digit_of(v: int) -> char
    recommends
        0 <= v < 16,
{
    if v == 0 {
        '0'
    } else if v == 1 {
        '1'
    } else if v == 2 {
        '2'
    } else if v == 3 {
        '3'
    } else if v == 4 {
        '4'
    } else if v == 5 {
        '5'
    } else if v == 6 {
        '6'
    } else if v == 7 {
        '7'
    } else if v == 8 {
        '8'
    } else if v == 9 {
        '9'
    } else if v == 10 {
        'a'
    } else if v == 11 {
        'b'
    } else if v == 12 {
        'c'
    } else if v == 13 {
        'd'
    } else if v == 14 {
        'e'
    } else {
        'f'
    }
}

/// The lowercase hex encoding of a byte sequence, two digits per byte.
pub open spec fn spec_hex_encoded(b: Seq<u8>) -> Seq<char> {
    Seq::new(
        b.len() * 2,
        |i: int|
            if i % 2 == 0 {
                spec_hex_digit_of(b[i / 2] as int / 16)
            } else {
                spec_hex_digit_of(b[i / 2] as int % 16)
            },
    )
}

proof fn lemma_hex_digit_round(v: int)
    requires
        0 <= v < 16,
    ensures
        spec_is_hex_digit(spec_hex_digit_of(v)),
        spec_hex_val(spec_hex_digit_of(v)) == v,
{
}

/// Decoding is a left inverse of encoding: the hex encoding of any byte
/// sequence is well formed, and decoding it yields the original bytes.
pub proof fn lemma_hex_round_trip(b: Seq<u8>)
    ensures
        spec_valid_hex(spec_hex_encoded(b)),
        spec_hex_decoded(spec_hex_encoded(b)) == b,
{
    let s = spec_hex_encoded(b);
    assert forall|i: int| 0 <= i < s.len() implies spec_is_hex_digit(s[i]) by {
        if i % 2 == 0 {
            lemma_hex_digit_round(b[i / 2] as int / 16);
        } else {
            lemma_hex_digit_round(b[i / 2] as int % 16);
        }
    }
    assert forall|i: int| 0 <= i < b.len() implies spec_hex_decoded(s)[i] == b[i] by {
        assert(s[2 * i] == spec_hex_digit_of(b[i] as int / 16));
        assert(s[2 * i + 1] == spec_hex_digit_of(b[i] as int % 16));
        lemma_hex_digit_round(b[i] as int / 16);
        lemma_hex_digit_round(b[i] as int % 16);
        assert(b[i] as int / 16 * 16 + b[i] as int % 16 == b[i] as int);
    }
    assert(spec_hex_decoded(s) =~= b);
}

/// hex's error type for malformed hex input, opaque to the verifier.
#[verifier::external_type_specification]
#[verifier::external_body]
pub struct ExFromHexError(hex::FromHexError);

/// Relies on hex::decode: it succeeds exactly on an even number of hex digits
/// (0-9, a-f, A-F, upper and lower case mixed freely) and yields one byte per
/// digit pair, high digit first.
#[verifier::external_body]
fn hex_decode(data: &str) -> (r: Result<Vec<u8>, hex::FromHexError>)
    ensures
        r is Ok <==> spec_valid_hex(data@),
        r matches Ok(v) ==> v@ == spec_hex_decoded(data@),
{
    hex::decode(data)
}

/// Strictly decodes a hex payload: an even number of hex digits, or an
/// encoding failure.
pub fn decode_hex(data: &str) -> (r: Result<Vec<u8>, VerifyError>)
    ensures
        match r {
            Ok(v) => spec_valid_hex(data@) && v@ == spec_hex_decoded(data@),
            Err(e) => !spec_valid_hex(data@) && e == VerifyError::InvalidEncoding,
        },
{
    match hex_decode(data) {
        Ok(v) => Ok(v),
        Err(_) => Err(VerifyError::InvalidEncoding),
    }
}

} // verus!
