//! The closed set of digest algorithms and the two variant families.

use vstd::prelude::*;

verus! {

/// S-box parameter set of GOST R 34.11-94.
#[derive(Debug, Clone, Copy, PartialEq, Eq, Structural)]
pub enum GostVariant {
    CryptoPro,
    Test,
}

/// Padding scheme of Tiger.
#[derive(Debug, Clone, Copy, PartialEq, Eq, Structural)]
pub enum TigerVariant {
    Tiger,
    Tiger2,
}

impl GostVariant {
    pub open spec fn label(self) -> Seq<char> {
        match self {
            GostVariant::CryptoPro => "GOST R 34.11-94 (CryptoPro S-box)"@,
            GostVariant::Test => "GOST R 34.11-94 (Test S-box)"@,
        }
    }

    /// Both variants, CryptoPro first.
    pub fn all() -> (r: Vec<GostVariant>)
        ensures
            r@ == seq![GostVariant::CryptoPro, GostVariant::Test],
    {
        vec![GostVariant::CryptoPro, GostVariant::Test]
    }

    /// Human-readable name of the variant.
    pub fn to_string(&self) -> (r: &'static str)
        ensures
            r@ == self.label(),
    {
        match self {
            GostVariant::CryptoPro => "GOST R 34.11-94 (CryptoPro S-box)",
            GostVariant::Test => "GOST R 34.11-94 (Test S-box)",
        }
    }
}

impl TigerVariant {
    pub open spec fn label(self) -> Seq<char> {
        match self {
            TigerVariant::Tiger => "Tiger (original padding)"@,
            TigerVariant::Tiger2 => "Tiger2 (alternate padding)"@,
        }
    }

    /// Both variants, Tiger first.
    pub fn all() -> (r: Vec<TigerVariant>)
        ensures
            r@ == seq![TigerVariant::Tiger, TigerVariant::Tiger2],
    {
        vec![TigerVariant::Tiger, TigerVariant::Tiger2]
    }

    /// Human-readable name of the variant.
    pub fn to_string(&self) -> (r: &'static str)
        ensures
            r@ == self.label(),
    {
        match self {
            TigerVariant::Tiger => "Tiger (original padding)",
            TigerVariant::Tiger2 => "Tiger2 (alternate padding)",
        }
    }
}

/// A supported digest or checksum algorithm, ordered by declaration.
#[allow(non_camel_case_types)]
#[derive(Debug, Clone, Copy, PartialEq, Eq, Hash, PartialOrd, Ord, Structural)]
pub enum Algorithm {
    MD4,
    MD5,
    SHA1,
    SHA256,
    SHA384,
    SHA512,
    SHA3_224,
    SHA3_256,
    SHA3_384,
    SHA3_512,
    BLAKE2b,
    BLAKE2s,
    RIPEMD160,
    TIGER192,
    WHIRLPOOL,
    GOST,
    CRC32,
    ADLER32,
}

/// Every algorithm, in declaration order.
pub open spec fn all_algorithms() -> Seq<Algorithm> {
    seq![
        Algorithm::MD4,
        Algorithm::MD5,
        Algorithm::SHA1,
        Algorithm::SHA256,
        Algorithm::SHA384,
        Algorithm::SHA512,
        Algorithm::SHA3_224,
        Algorithm::SHA3_256,
        Algorithm::SHA3_384,
        Algorithm::SHA3_512,
        Algorithm::BLAKE2b,
        Algorithm::BLAKE2s,
        Algorithm::RIPEMD160,
        Algorithm::TIGER192,
        Algorithm::WHIRLPOOL,
        Algorithm::GOST,
        Algorithm::CRC32,
        Algorithm::ADLER32,
    ]
}

impl Algorithm {
    /// Canonical display name, in uppercase.
    pub open spec fn name(self) -> Seq<char> {
        match self {
            Algorithm::MD4 => "MD4"@,
            Algorithm::MD5 => "MD5"@,
            Algorithm::SHA1 => "SHA1"@,
            Algorithm::SHA256 => "SHA256"@,
            Algorithm::SHA384 => "SHA384"@,
            Algorithm::SHA512 => "SHA512"@,
            Algorithm::SHA3_224 => "SHA3-224"@,
            Algorithm::SHA3_256 => "SHA3-256"@,
            Algorithm::SHA3_384 => "SHA3-384"@,
            Algorithm::SHA3_512 => "SHA3-512"@,
            Algorithm::BLAKE2b => "BLAKE2B"@,
            Algorithm::BLAKE2s => "BLAKE2S"@,
            Algorithm::RIPEMD160 => "RIPEMD160"@,
            Algorithm::TIGER192 => "TIGER192"@,
            Algorithm::WHIRLPOOL => "WHIRLPOOL"@,
            Algorithm::GOST => "GOST"@,
            Algorithm::CRC32 => "CRC32"@,
            Algorithm::ADLER32 => "ADLER32"@,
        }
    }

    /// Every algorithm, in declaration order.
    pub fn all() -> (r: Vec<Algorithm>)
        ensures
            r@ == all_algorithms(),
    {
        vec![
            Algorithm::MD4,
            Algorithm::MD5,
            Algorithm::SHA1,
            Algorithm::SHA256,
            Algorithm::SHA384,
            Algorithm::SHA512,
            Algorithm::SHA3_224,
            Algorithm::SHA3_256,
            Algorithm::SHA3_384,
            Algorithm::SHA3_512,
            Algorithm::BLAKE2b,
            Algorithm::BLAKE2s,
            Algorithm::RIPEMD160,
            Algorithm::TIGER192,
            Algorithm::WHIRLPOOL,
            Algorithm::GOST,
            Algorithm::CRC32,
            Algorithm::ADLER32,
        ]
    }

    /// Canonical display name, as an owned string.
    pub fn to_string(&self) -> (r: String)
        ensures
            r@ == self.name(),
    {
        let s: &str = match self {
            Algorithm::MD4 => "MD4",
            Algorithm::MD5 => "MD5",
            Algorithm::SHA1 => "SHA1",
            Algorithm::SHA256 => "SHA256",
            Algorithm::SHA384 => "SHA384",
            Algorithm::SHA512 => "SHA512",
            Algorithm::SHA3_224 => "SHA3-224",
            Algorithm::SHA3_256 => "SHA3-256",
            Algorithm::SHA3_384 => "SHA3-384",
            Algorithm::SHA3_512 => "SHA3-512",
            Algorithm::BLAKE2b => "BLAKE2B",
            Algorithm::BLAKE2s => "BLAKE2S",
            Algorithm::RIPEMD160 => "RIPEMD160",
            Algorithm::TIGER192 => "TIGER192",
            Algorithm::WHIRLPOOL => "WHIRLPOOL",
            Algorithm::GOST => "GOST",
            Algorithm::CRC32 => "CRC32",
            Algorithm::ADLER32 => "ADLER32",
        };
        let r = s.to_string();
        proof {
            vstd::string::to_string_from_display_ensures_for_str(s, r);
        }
        r
    }
}

} // verus!
