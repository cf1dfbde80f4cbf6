//! The multi-hasher engine: every requested algorithm consumes the same
//! bytes, in the same order, and yields one lowercase-hex result.

use vstd::prelude::*;

use crate::adapters::{gost_output, tiger_output, GostHasher, TigerHasher};
use crate::algo::{Algorithm, GostVariant, TigerVariant};
use crate::digests::{
    adler32_checksum, adler_absorbed, blake2b512_digest, blake2s256_digest, block_absorbed,
    block_finalize, block_kind, block_update, crc32_absorbed, crc32_checksum, md4_digest,
    md5_absorbed, md5_consume, md5_digest, md5_finalize, md5_new, new_block_hasher,
    ripemd160_digest, sha1_digest, sha256_digest, sha384_digest, sha3_224_digest, sha3_256_digest,
    sha3_384_digest, sha3_512_digest, sha512_digest, whirlpool_digest, BlockAlgorithm, BlockHasher,
    MAX_INPUT_LEN,
};
use crate::encoding::{hex_encode, hex_lower};

verus! {

/// Big-endian bytes of a 32-bit checksum.
pub open spec fn be_bytes(x: u32) -> Seq<u8> {
    seq![
        (x / 0x100_0000) as u8,
        ((x / 0x1_0000) % 256) as u8,
        ((x / 256) % 256) as u8,
        (x % 256) as u8,
    ]
}

/// Digest bytes of `data` under `alg`; the variants matter to GOST and
/// Tiger only.
pub open spec fn digest_bytes(
    alg: Algorithm,
    gost: GostVariant,
    tiger: TigerVariant,
    data: Seq<u8>,
) -> Seq<u8> {
    match alg {
        Algorithm::MD4 => md4_digest(data),
        Algorithm::MD5 => md5_digest(data),
        Algorithm::SHA1 => sha1_digest(data),
        Algorithm::SHA256 => sha256_digest(data),
        Algorithm::SHA384 => sha384_digest(data),
        Algorithm::SHA512 => sha512_digest(data),
        Algorithm::SHA3_224 => sha3_224_digest(data),
        Algorithm::SHA3_256 => sha3_256_digest(data),
        Algorithm::SHA3_384 => sha3_384_digest(data),
        Algorithm::SHA3_512 => sha3_512_digest(data),
        Algorithm::BLAKE2b => blake2b512_digest(data),
        Algorithm::BLAKE2s => blake2s256_digest(data),
        Algorithm::RIPEMD160 => ripemd160_digest(data),
        Algorithm::TIGER192 => tiger_output(tiger, data),
        Algorithm::WHIRLPOOL => whirlpool_digest(data),
        Algorithm::GOST => gost_output(gost, data),
        Algorithm::CRC32 => be_bytes(crc32_checksum(data)),
        Algorithm::ADLER32 => be_bytes(adler32_checksum(data)),
    }
}

/// Length in bytes of the digest of `alg`.
pub open spec fn digest_len(alg: Algorithm) -> nat {
    match alg {
        Algorithm::MD4 | Algorithm::MD5 => 16,
        Algorithm::SHA1 | Algorithm::RIPEMD160 => 20,
        Algorithm::TIGER192 => 24,
        Algorithm::SHA3_224 => 28,
        Algorithm::SHA256 | Algorithm::SHA3_256 | Algorithm::BLAKE2s | Algorithm::GOST => 32,
        Algorithm::SHA384 | Algorithm::SHA3_384 => 48,
        Algorithm::SHA512 | Algorithm::SHA3_512 | Algorithm::BLAKE2b | Algorithm::WHIRLPOOL => 64,
        Algorithm::CRC32 | Algorithm::ADLER32 => 4,
    }
}

/// The result string of `alg` on `data`: its digest in lowercase hex.
pub open spec fn digest_hex(
    alg: Algorithm,
    gost: GostVariant,
    tiger: TigerVariant,
    data: Seq<u8>,
) -> Seq<char> {
    hex_lower(digest_bytes(alg, gost, tiger, data))
}

/// The block algorithm that computes `alg`, for those that one computes
/// directly.
pub open spec fn block_algorithm_of(alg: Algorithm) -> Option<BlockAlgorithm> {
    match alg {
        Algorithm::MD4 => Some(BlockAlgorithm::Md4),
        Algorithm::SHA1 => Some(BlockAlgorithm::Sha1),
        Algorithm::SHA256 => Some(BlockAlgorithm::Sha256),
        Algorithm::SHA384 => Some(BlockAlgorithm::Sha384),
        Algorithm::SHA512 => Some(BlockAlgorithm::Sha512),
        Algorithm::SHA3_224 => Some(BlockAlgorithm::Sha3_224),
        Algorithm::SHA3_256 => Some(BlockAlgorithm::Sha3_256),
        Algorithm::SHA3_384 => Some(BlockAlgorithm::Sha3_384),
        Algorithm::SHA3_512 => Some(BlockAlgorithm::Sha3_512),
        Algorithm::BLAKE2b => Some(BlockAlgorithm::Blake2b512),
        Algorithm::BLAKE2s => Some(BlockAlgorithm::Blake2s256),
        Algorithm::RIPEMD160 => Some(BlockAlgorithm::Ripemd160),
        Algorithm::WHIRLPOOL => Some(BlockAlgorithm::Whirlpool),
        _ => None,
    }
}

/// The running state of one algorithm's hasher.
pub enum HasherState {
    Block(BlockHasher),
    Md5(md5::Context),
    Tiger(TigerHasher),
    Gost(GostHasher),
    Crc32(crc32fast::Hasher),
    Adler32(adler32::RollingAdler32),
}

/// One active hasher, for one algorithm and fixed variant selections.
pub struct AlgorithmHasher {
    algorithm: Algorithm,
    gost: GostVariant,
    tiger: TigerVariant,
    state: HasherState,
}

impl AlgorithmHasher {
    pub closed spec fn algorithm(&self) -> Algorithm {
        self.algorithm
    }

    pub closed spec fn gost(&self) -> GostVariant {
        self.gost
    }

    pub closed spec fn tiger(&self) -> TigerVariant {
        self.tiger
    }

    /// The bytes this hasher has consumed.
    pub closed spec fn absorbed(&self) -> Seq<u8> {
        match self.state {
            HasherState::Block(h) => block_absorbed(h),
            HasherState::Md5(c) => md5_absorbed(c),
            HasherState::Tiger(t) => t.absorbed(),
            HasherState::Gost(g) => g.absorbed(),
            HasherState::Crc32(h) => crc32_absorbed(h),
            HasherState::Adler32(h) => adler_absorbed(h),
        }
    }

    /// The state is the one that computes `algorithm` under the variants.
    pub closed spec fn wf(&self) -> bool {
        match self.state {
            HasherState::Block(h) => block_algorithm_of(self.algorithm) == Some(block_kind(h)),
            HasherState::Md5(_) => self.algorithm == Algorithm::MD5,
            HasherState::Tiger(t) => self.algorithm == Algorithm::TIGER192 && t.wf()
                && t.variant() == self.tiger,
            HasherState::Gost(g) => self.algorithm == Algorithm::GOST && g.wf() && g.variant()
                == self.gost,
            HasherState::Crc32(_) => self.algorithm == Algorithm::CRC32,
            HasherState::Adler32(_) => self.algorithm == Algorithm::ADLER32,
        }
    }

    /// The algorithm this hasher computes.
    pub fn current_algorithm(&self) -> (r: Algorithm)
        ensures
            r == self.algorithm(),
    {
        self.algorithm
    }

    /// A hasher for `algorithm` that has consumed nothing; only GOST and
    /// Tiger look at their variant.
    pub fn new(algorithm: Algorithm, gost: GostVariant, tiger: TigerVariant) -> (r: Self)
        ensures
            r.wf(),
            r.algorithm() == algorithm,
            r.gost() == gost,
            r.tiger() == tiger,
            r.absorbed() == Seq::<u8>::empty(),
    {
        let state = match algorithm {
            Algorithm::MD4 => HasherState::Block(new_block_hasher(BlockAlgorithm::Md4)),
            Algorithm::MD5 => HasherState::Md5(md5_new()),
            Algorithm::SHA1 => HasherState::Block(new_block_hasher(BlockAlgorithm::Sha1)),
            Algorithm::SHA256 => HasherState::Block(new_block_hasher(BlockAlgorithm::Sha256)),
            Algorithm::SHA384 => HasherState::Block(new_block_hasher(BlockAlgorithm::Sha384)),
            Algorithm::SHA512 => HasherState::Block(new_block_hasher(BlockAlgorithm::Sha512)),
            Algorithm::SHA3_224 => HasherState::Block(new_block_hasher(BlockAlgorithm::Sha3_224)),
            Algorithm::SHA3_256 => HasherState::Block(new_block_hasher(BlockAlgorithm::Sha3_256)),
            Algorithm::SHA3_384 => HasherState::Block(new_block_hasher(BlockAlgorithm::Sha3_384)),
            Algorithm::SHA3_512 => HasherState::Block(new_block_hasher(BlockAlgorithm::Sha3_512)),
            Algorithm::BLAKE2b => HasherState::Block(new_block_hasher(BlockAlgorithm::Blake2b512)),
            Algorithm::BLAKE2s => HasherState::Block(new_block_hasher(BlockAlgorithm::Blake2s256)),
            Algorithm::RIPEMD160 => HasherState::Block(
                new_block_hasher(BlockAlgorithm::Ripemd160),
            ),
            Algorithm::TIGER192 => HasherState::Tiger(TigerHasher::new(tiger)),
            Algorithm::WHIRLPOOL => HasherState::Block(
                new_block_hasher(BlockAlgorithm::Whirlpool),
            ),
            Algorithm::GOST => HasherState::Gost(GostHasher::new(gost)),
            Algorithm::CRC32 => HasherState::Crc32(crc32fast::Hasher::new()),
            Algorithm::ADLER32 => HasherState::Adler32(adler32::RollingAdler32::new()),
        };
        AlgorithmHasher { algorithm, gost, tiger, state }
    }

    /// Consumes `data` after everything consumed before; Adler-32 takes it
    /// one byte at a time.
    pub fn update(&mut self, data: &[u8])
        requires
            old(self).wf(),
            old(self).absorbed().len() + data@.len() <= MAX_INPUT_LEN,
        ensures
            final(self).wf(),
            final(self).algorithm() == old(self).algorithm(),
            final(self).gost() == old(self).gost(),
            final(self).tiger() == old(self).tiger(),
            final(self).absorbed() == old(self).absorbed() + data@,
    {
        match &mut self.state {
            HasherState::Block(h) => block_update(h, data),
            HasherState::Md5(c) => md5_consume(c, data),
            HasherState::Tiger(t) => t.update(data),
            HasherState::Gost(g) => g.update(data),
            HasherState::Crc32(h) => h.update(data),
            HasherState::Adler32(h) => {
                let ghost start = adler_absorbed(*h);
                let mut i: usize = 0;
                while i < data.len()
                    invariant
                        i <= data@.len(),
                        adler_absorbed(*h) == start + data@.subrange(0, i as int),
                    decreases data@.len() - i,
                {
                    h.update(data[i]);
                    assert(data@.subrange(0, i + 1) == data@.subrange(0, i as int).push(data@[i as int]));
                    i = i + 1;
                }
                assert(data@.subrange(0, data@.len() as int) == data@);
            },
        }
    }

    /// The digest of everything consumed, in lowercase hex.
    pub fn finish(self) -> (r: String)
        requires
            self.wf(),
        ensures
            r@ == digest_hex(self.algorithm(), self.gost(), self.tiger(), self.absorbed()),
            r@.len() == 2 * digest_len(self.algorithm()),
    {
        let bytes = match self.state {
            HasherState::Block(h) => block_finalize(h),
            HasherState::Md5(c) => md5_finalize(c),
            HasherState::Tiger(t) => t.finalize(),
            HasherState::Gost(g) => g.finalize(),
            HasherState::Crc32(h) => checksum_bytes(h.finalize()),
            HasherState::Adler32(h) => checksum_bytes(h.hash()),
        };
        hex_encode(bytes.as_slice())
    }
}

/// Big-endian bytes of a checksum, so that its hex form has eight digits.
fn checksum_bytes(x: u32) -> (r: Vec<u8>)
    ensures
        r@ == be_bytes(x),
{
    let r = vec![
        (x / 0x100_0000) as u8,
        ((x / 0x1_0000) % 256) as u8,
        ((x / 256) % 256) as u8,
        (x % 256) as u8,
    ];
    assert(r@ =~= be_bytes(x));
    r
}

/// The digest of `data` under `algorithm`, in lowercase hex.
pub fn calculate_hash_from_data(
    data: &[u8],
    algorithm: &Algorithm,
    gost_variant: GostVariant,
    tiger_variant: TigerVariant,
) -> (r: String)
    requires
        data@.len() <= MAX_INPUT_LEN,
    ensures
        r@ == digest_hex(*algorithm, gost_variant, tiger_variant, data@),
        r@.len() == 2 * digest_len(*algorithm),
{
    let mut hasher = AlgorithmHasher::new(*algorithm, gost_variant, tiger_variant);
    hasher.update(data);
    assert(hasher.absorbed() == data@);
    hasher.finish()
}

} // verus!
