//! Byte-level representations of a digest: hexadecimal and base64.

use vstd::prelude::*;

verus! {

pub open spec fn lower_digits() -> Seq<char> {
    seq!['0', '1', '2', '3', '4', '5', '6', '7', '8', '9', 'a', 'b', 'c', 'd', 'e', 'f']
}

pub open spec fn upper_digits() -> Seq<char> {
    seq!['0', '1', '2', '3', '4', '5', '6', '7', '8', '9', 'A', 'B', 'C', 'D', 'E', 'F']
}

/// Two digits per byte, high nibble first, from the alphabet `digits`.
pub open spec fn hex_with(digits: Seq<char>, b: Seq<u8>) -> Seq<char> {
    Seq::new(
        2 * b.len(),
        |i: int|
            if i % 2 == 0 {
                digits[b[i / 2] as int / 16]
            } else {
                digits[b[i / 2] as int % 16]
            },
    )
}

/// Lowercase hexadecimal text of `b`.
pub open spec fn hex_lower(b: Seq<u8>) -> Seq<char> {
    hex_with(lower_digits(), b)
}

/// Uppercase hexadecimal text of `b`.
pub open spec fn hex_upper(b: Seq<u8>) -> Seq<char> {
    hex_with(upper_digits(), b)
}

pub open spec fn is_hex_digit(c: char) -> bool {
    ('0' <= c && c <= '9') || ('a' <= c && c <= 'f') || ('A' <= c && c <= 'F')
}

/// Value of a hexadecimal digit of either case.
pub open spec fn hex_value(c: char) -> int {
    if '0' <= c && c <= '9' {
        c as int - '0' as int
    } else if 'a' <= c && c <= 'f' {
        c as int - 'a' as int + 10
    } else {
        c as int - 'A' as int + 10
    }
}

/// Text that decodes as hexadecimal: an even number of hex digits.
pub open spec fn is_hex(s: Seq<char>) -> bool {
    s.len() % 2 == 0 && forall|i: int| 0 <= i < s.len() ==> is_hex_digit(#[trigger] s[i])
}

/// Bytes of hexadecimal text, two digits each, high nibble first.
pub open spec fn hex_bytes(s: Seq<char>) -> Seq<u8> {
    Seq::new(s.len() / 2, |i: int| (hex_value(s[2 * i]) * 16 + hex_value(s[2 * i + 1])) as u8)
}

/// Relies on `hex::encode`: two lowercase digits per byte.
#[verifier::external_body]
pub fn hex_encode(b: &[u8]) -> (r: String)
    ensures
        r@ == hex_lower(b@),
{
    hex::encode(b)
}

/// Relies on `hex::encode_upper`: two uppercase digits per byte.
#[verifier::external_body]
pub fn hex_encode_upper(b: &[u8]) -> (r: String)
    ensures
        r@ == hex_upper(b@),
{
    hex::encode_upper(b)
}

/// Relies on `hex::decode`: an odd length or a character outside
/// `0-9a-fA-F` is an error, whose text is returned.
#[verifier::external_body]
pub fn hex_decode(s: &str) -> (r: Result<Vec<u8>, String>)
    ensures
        r is Ok <==> is_hex(s@),
        r is Ok ==> r->Ok_0@ == hex_bytes(s@),
{
    hex::decode(s).map_err(|e| e.to_string())
}

/// Standard base64 text (with padding) of `b`.
pub uninterp spec fn base64_text(b: Seq<u8>) -> Seq<char>;

/// Bytes of `s` under the standard base64 alphabet with canonical padding,
/// or `None` where the text is not such base64.
pub uninterp spec fn base64_bytes(s: Seq<char>) -> Option<Seq<u8>>;

/// Relies on `base64::engine::general_purpose::STANDARD.encode`; decoding
/// the text with the same engine gives the bytes back.
#[verifier::external_body]
pub fn base64_encode(b: &[u8]) -> (r: String)
    ensures
        r@ == base64_text(b@),
        base64_bytes(r@) == Some(b@),
{
    base64::Engine::encode(&base64::engine::general_purpose::STANDARD, b)
}

/// Relies on `base64::engine::general_purpose::STANDARD.decode`; an error
/// is returned as its text. Canonical padding makes every text whose length
/// is not a multiple of four an error (a non-ASCII character is never a
/// base64 symbol).
#[verifier::external_body]
pub fn base64_decode(s: &str) -> (r: Result<Vec<u8>, String>)
    ensures
        r is Ok <==> base64_bytes(s@) is Some,
        s@.len() % 4 != 0 ==> r is Err,
        r is Ok ==> base64_bytes(s@) == Some(r->Ok_0@),
{
    base64::Engine::decode(&base64::engine::general_purpose::STANDARD, s).map_err(|e| e.to_string())
}

} // verus!
