//! Display formats of a digest, and the format-agnostic comparison of a
//! computed digest with a reference one.

use vstd::prelude::*;

use crate::encoding::{
    base64_bytes, base64_decode, base64_encode, base64_text, hex_bytes, hex_decode, hex_encode,
    hex_encode_upper, hex_lower, hex_upper, is_hex,
};
use crate::text::{normalize, normalized};

verus! {

/// How a digest is shown to the user.
#[derive(Debug, Clone, Copy, PartialEq, Eq, Structural)]
pub enum HashFormat {
    HexUpper,
    HexLower,
    Base64,
}

/// `s` starts with `p`.
pub open spec fn has_prefix(s: Seq<char>, p: Seq<char>) -> bool {
    p.len() <= s.len() && s.subrange(0, p.len() as int) == p
}

impl HashFormat {
    pub open spec fn label(self) -> Seq<char> {
        match self {
            HashFormat::HexUpper => "Hexadecimal (Uppercase)"@,
            HashFormat::HexLower => "Hexadecimal (Lowercase)"@,
            HashFormat::Base64 => "Base64"@,
        }
    }

    /// Text of the digest `b` in this format.
    pub open spec fn render(self, b: Seq<u8>) -> Seq<char> {
        match self {
            HashFormat::HexUpper => hex_upper(b),
            HashFormat::HexLower => hex_lower(b),
            HashFormat::Base64 => base64_text(b),
        }
    }

    /// Bytes of the text `s` read in this format, after normalisation.
    pub open spec fn parsed(self, s: Seq<char>) -> Option<Seq<u8>> {
        let n = normalized(s);
        match self {
            HashFormat::Base64 => base64_bytes(n),
            _ => if is_hex(n) {
                Some(hex_bytes(n))
            } else {
                None
            },
        }
    }

    /// All formats, uppercase hex first.
    pub fn all() -> (r: Vec<HashFormat>)
        ensures
            r@ == seq![HashFormat::HexUpper, HashFormat::HexLower, HashFormat::Base64],
    {
        vec![HashFormat::HexUpper, HashFormat::HexLower, HashFormat::Base64]
    }

    /// Human-readable name of the format.
    pub fn to_string(&self) -> (r: &'static str)
        ensures
            r@ == self.label(),
    {
        match self {
            HashFormat::HexUpper => "Hexadecimal (Uppercase)",
            HashFormat::HexLower => "Hexadecimal (Lowercase)",
            HashFormat::Base64 => "Base64",
        }
    }

    /// The digest `hash_bytes` written in this format.
    pub fn format_hash(&self, hash_bytes: &[u8]) -> (r: String)
        ensures
            r@ == self.render(hash_bytes@),
    {
        match self {
            HashFormat::HexUpper => hex_encode_upper(hash_bytes),
            HashFormat::HexLower => hex_encode(hash_bytes),
            HashFormat::Base64 => base64_encode(hash_bytes),
        }
    }

    /// Reads `hash_str` in this format once surrounding whitespace and
    /// embedded spaces are dropped; an error names the format that failed.
    pub fn parse_hash(&self, hash_str: &str) -> (r: Result<Vec<u8>, String>)
        ensures
            r is Ok <==> self.parsed(hash_str@) is Some,
            r is Ok ==> self.parsed(hash_str@) == Some(r->Ok_0@),
            r is Err ==> has_prefix(
                r->Err_0@,
                match self {
                    HashFormat::Base64 => "Error decoding base64: "@,
                    _ => "Error decoding hex: "@,
                },
            ),
    {
        let n = normalize(hash_str);
        match self {
            HashFormat::Base64 => match base64_decode(n.as_str()) {
                Ok(v) => Ok(v),
                Err(e) => Err(prefixed_error("Error decoding base64: ", &e)),
            },
            _ => match hex_decode(n.as_str()) {
                Ok(v) => Ok(v),
                Err(e) => Err(prefixed_error("Error decoding hex: ", &e)),
            },
        }
    }
}

fn prefixed_error(prefix: &str, cause: &String) -> (r: String)
    ensures
        has_prefix(r@, prefix@),
{
    let mut s = String::from_str(prefix);
    s.append(cause.as_str());
    assert(s@.subrange(0, prefix@.len() as int) =~= prefix@);
    s
}

/// Result text that stands for a digest that could not be computed.
pub const UNAVAILABLE: &'static str = "Error: Not implemented";

/// Bytes a hash text stands for: hexadecimal if it reads as such, else
/// standard base64.
pub open spec fn decoded(s: Seq<char>) -> Option<Seq<u8>> {
    let n = normalized(s);
    if is_hex(n) {
        Some(hex_bytes(n))
    } else {
        base64_bytes(n)
    }
}

/// Two hash texts name the same digest: both are non-empty as given,
/// neither is the unavailable marker, both decode, and the bytes agree.
pub open spec fn hashes_equal(a: Seq<char>, b: Seq<char>) -> bool {
    &&& a.len() > 0
    &&& b.len() > 0
    &&& a != UNAVAILABLE@
    &&& b != UNAVAILABLE@
    &&& decoded(a) is Some
    &&& decoded(a) == decoded(b)
}

/// The bytes `s` stands for, in either representation.
pub fn decode_hash(s: &str) -> (r: Option<Vec<u8>>)
    ensures
        r is Some <==> decoded(s@) is Some,
        r is Some ==> decoded(s@) == Some(r->Some_0@),
{
    let n = normalize(s);
    match hex_decode(n.as_str()) {
        Ok(v) => Some(v),
        Err(_) => match base64_decode(n.as_str()) {
            Ok(v) => Some(v),
            Err(_) => None,
        },
    }
}

fn bytes_equal(a: &Vec<u8>, b: &Vec<u8>) -> (r: bool)
    ensures
        r == (a@ == b@),
{
    if a.len() != b.len() {
        return false;
    }
    let mut i: usize = 0;
    while i < a.len()
        invariant
            i <= a@.len(),
            a@.len() == b@.len(),
            forall|k: int| 0 <= k < i ==> a@[k] == b@[k],
        decreases a@.len() - i,
    {
        if a[i] != b[i] {
            return false;
        }
        i = i + 1;
    }
    assert(a@ =~= b@);
    true
}

/// Compares two hash representations by the bytes they stand for, so that
/// hex of either case matches base64 of the same digest.
pub fn equals(a: &str, b: &str) -> (r: bool)
    ensures
        r == hashes_equal(a@, b@),
{
    let marker = String::from_str(UNAVAILABLE);
    let sa = String::from_str(a);
    let sb = String::from_str(b);
    if sa == marker || sb == marker {
        return false;
    }
    if a.unicode_len() == 0 || b.unicode_len() == 0 {
        return false;
    }
    match (decode_hash(a), decode_hash(b)) {
        (Some(x), Some(y)) => bytes_equal(&x, &y),
        _ => false,
    }
}

} // verus!
