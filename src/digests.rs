//! Incremental hashers of the outside digest crates, behind trusted items.
//!
//! Each hasher is modelled by the bytes it has absorbed so far; the digest
//! it returns is a named function of those bytes alone.

use vstd::prelude::*;

verus! {

/// The largest number of bytes one hasher is fed: every length counter of
/// the outside hashers stays far from overflow below it.
pub const MAX_INPUT_LEN: u64 = 0x0fff_ffff_ffff_ffff;

/// The block-oriented digest functions of the RustCrypto crates.
#[derive(Debug, Clone, Copy, PartialEq, Eq, Structural)]
pub enum BlockAlgorithm {
    Md4,
    Sha1,
    Sha256,
    Sha384,
    Sha512,
    Sha3_224,
    Sha3_256,
    Sha3_384,
    Sha3_512,
    Blake2b512,
    Blake2s256,
    Ripemd160,
    Tiger,
    Tiger2,
    Whirlpool,
    Gost94CryptoPro,
    Gost94Test,
}

/// Digest that `md4::Md4` returns after absorbing `data`.
pub uninterp spec fn md4_digest(data: Seq<u8>) -> Seq<u8>;

/// Digest that `sha1::Sha1` returns after absorbing `data`.
pub uninterp spec fn sha1_digest(data: Seq<u8>) -> Seq<u8>;

/// Digest that `sha2::Sha256` returns after absorbing `data`.
pub uninterp spec fn sha256_digest(data: Seq<u8>) -> Seq<u8>;

/// Digest that `sha2::Sha384` returns after absorbing `data`.
pub uninterp spec fn sha384_digest(data: Seq<u8>) -> Seq<u8>;

/// Digest that `sha2::Sha512` returns after absorbing `data`.
pub uninterp spec fn sha512_digest(data: Seq<u8>) -> Seq<u8>;

/// Digest that `sha3::Sha3_224` returns after absorbing `data`.
pub uninterp spec fn sha3_224_digest(data: Seq<u8>) -> Seq<u8>;

/// Digest that `sha3::Sha3_256` returns after absorbing `data`.
pub uninterp spec fn sha3_256_digest(data: Seq<u8>) -> Seq<u8>;

/// Digest that `sha3::Sha3_384` returns after absorbing `data`.
pub uninterp spec fn sha3_384_digest(data: Seq<u8>) -> Seq<u8>;

/// Digest that `sha3::Sha3_512` returns after absorbing `data`.
pub uninterp spec fn sha3_512_digest(data: Seq<u8>) -> Seq<u8>;

/// Digest that `blake2::Blake2b512` returns after absorbing `data`.
pub uninterp spec fn blake2b512_digest(data: Seq<u8>) -> Seq<u8>;

/// Digest that `blake2::Blake2s256` returns after absorbing `data`.
pub uninterp spec fn blake2s256_digest(data: Seq<u8>) -> Seq<u8>;

/// Digest that `ripemd::Ripemd160` returns after absorbing `data`.
pub uninterp spec fn ripemd160_digest(data: Seq<u8>) -> Seq<u8>;

/// Digest that `tiger::Tiger` returns after absorbing `data`.
pub uninterp spec fn tiger_digest(data: Seq<u8>) -> Seq<u8>;

/// Digest that `tiger::Tiger2` returns after absorbing `data`.
pub uninterp spec fn tiger2_digest(data: Seq<u8>) -> Seq<u8>;

/// Digest that `whirlpool::Whirlpool` returns after absorbing `data`.
pub uninterp spec fn whirlpool_digest(data: Seq<u8>) -> Seq<u8>;

/// Digest that `gost94::Gost94CryptoPro` returns after absorbing `data`.
pub uninterp spec fn gost94_cryptopro_digest(data: Seq<u8>) -> Seq<u8>;

/// Digest that `gost94::Gost94Test` returns after absorbing `data`.
pub uninterp spec fn gost94_test_digest(data: Seq<u8>) -> Seq<u8>;

/// Output length in bytes of each block algorithm.
pub open spec fn block_output_len(kind: BlockAlgorithm) -> nat {
    match kind {
        BlockAlgorithm::Md4 => 16,
        BlockAlgorithm::Sha1 => 20,
        BlockAlgorithm::Sha256 => 32,
        BlockAlgorithm::Sha384 => 48,
        BlockAlgorithm::Sha512 => 64,
        BlockAlgorithm::Sha3_224 => 28,
        BlockAlgorithm::Sha3_256 => 32,
        BlockAlgorithm::Sha3_384 => 48,
        BlockAlgorithm::Sha3_512 => 64,
        BlockAlgorithm::Blake2b512 => 64,
        BlockAlgorithm::Blake2s256 => 32,
        BlockAlgorithm::Ripemd160 => 20,
        BlockAlgorithm::Tiger => 24,
        BlockAlgorithm::Tiger2 => 24,
        BlockAlgorithm::Whirlpool => 64,
        BlockAlgorithm::Gost94CryptoPro => 32,
        BlockAlgorithm::Gost94Test => 32,
    }
}

/// An in-progress hasher of one `BlockAlgorithm`, held through
/// `digest::DynDigest`, which every RustCrypto hasher implements.
///
/// The RustCrypto hasher types are aliases of `digest`'s generic core
/// wrapper, whose bounds are typenum traits that Verus cannot be given, so
/// the hasher stays opaque here and is described by what it has absorbed.
#[verifier::external_body]
pub struct BlockHasher {
    inner: Box<dyn digest::DynDigest>,
}

/// The bytes a block hasher has absorbed since it was created.
pub uninterp spec fn block_absorbed(h: BlockHasher) -> Seq<u8>;

/// The algorithm a block hasher was created for.
pub uninterp spec fn block_kind(h: BlockHasher) -> BlockAlgorithm;

/// Relies on `md4::Md4::new`: a fresh MD4 hasher.
#[verifier::external_body]
fn new_md4() -> (r: BlockHasher)
    ensures
        block_kind(r) == BlockAlgorithm::Md4,
        block_absorbed(r) == Seq::<u8>::empty(),
{
    BlockHasher { inner: Box::new(<md4::Md4 as digest::Digest>::new()) }
}

/// Relies on `sha1::Sha1::new`: a fresh SHA-1 hasher.
#[verifier::external_body]
fn new_sha1() -> (r: BlockHasher)
    ensures
        block_kind(r) == BlockAlgorithm::Sha1,
        block_absorbed(r) == Seq::<u8>::empty(),
{
    BlockHasher { inner: Box::new(<sha1::Sha1 as digest::Digest>::new()) }
}

/// Relies on `sha2::Sha256::new`: a fresh SHA-256 hasher.
#[verifier::external_body]
fn new_sha256() -> (r: BlockHasher)
    ensures
        block_kind(r) == BlockAlgorithm::Sha256,
        block_absorbed(r) == Seq::<u8>::empty(),
{
    BlockHasher { inner: Box::new(<sha2::Sha256 as digest::Digest>::new()) }
}

/// Relies on `sha2::Sha384::new`: a fresh SHA-384 hasher.
#[verifier::external_body]
fn new_sha384() -> (r: BlockHasher)
    ensures
        block_kind(r) == BlockAlgorithm::Sha384,
        block_absorbed(r) == Seq::<u8>::empty(),
{
    BlockHasher { inner: Box::new(<sha2::Sha384 as digest::Digest>::new()) }
}

/// Relies on `sha2::Sha512::new`: a fresh SHA-512 hasher.
#[verifier::external_body]
fn new_sha512() -> (r: BlockHasher)
    ensures
        block_kind(r) == BlockAlgorithm::Sha512,
        block_absorbed(r) == Seq::<u8>::empty(),
{
    BlockHasher { inner: Box::new(<sha2::Sha512 as digest::Digest>::new()) }
}

/// Relies on `sha3::Sha3_224::new`: a fresh SHA3-224 hasher.
#[verifier::external_body]
fn new_sha3_224() -> (r: BlockHasher)
    ensures
        block_kind(r) == BlockAlgorithm::Sha3_224,
        block_absorbed(r) == Seq::<u8>::empty(),
{
    BlockHasher { inner: Box::new(<sha3::Sha3_224 as digest::Digest>::new()) }
}

/// Relies on `sha3::Sha3_256::new`: a fresh SHA3-256 hasher.
#[verifier::external_body]
fn new_sha3_256() -> (r: BlockHasher)
    ensures
        block_kind(r) == BlockAlgorithm::Sha3_256,
        block_absorbed(r) == Seq::<u8>::empty(),
{
    BlockHasher { inner: Box::new(<sha3::Sha3_256 as digest::Digest>::new()) }
}

/// Relies on `sha3::Sha3_384::new`: a fresh SHA3-384 hasher.
#[verifier::external_body]
fn new_sha3_384() -> (r: BlockHasher)
    ensures
        block_kind(r) == BlockAlgorithm::Sha3_384,
        block_absorbed(r) == Seq::<u8>::empty(),
{
    BlockHasher { inner: Box::new(<sha3::Sha3_384 as digest::Digest>::new()) }
}

/// Relies on `sha3::Sha3_512::new`: a fresh SHA3-512 hasher.
#[verifier::external_body]
fn new_sha3_512() -> (r: BlockHasher)
    ensures
        block_kind(r) == BlockAlgorithm::Sha3_512,
        block_absorbed(r) == Seq::<u8>::empty(),
{
    BlockHasher { inner: Box::new(<sha3::Sha3_512 as digest::Digest>::new()) }
}

/// Relies on `blake2::Blake2b512::new`: a fresh BLAKE2b-512 hasher.
#[verifier::external_body]
fn new_blake2b512() -> (r: BlockHasher)
    ensures
        block_kind(r) == BlockAlgorithm::Blake2b512,
        block_absorbed(r) == Seq::<u8>::empty(),
{
    BlockHasher { inner: Box::new(<blake2::Blake2b512 as digest::Digest>::new()) }
}

/// Relies on `blake2::Blake2s256::new`: a fresh BLAKE2s-256 hasher.
#[verifier::external_body]
fn new_blake2s256() -> (r: BlockHasher)
    ensures
        block_kind(r) == BlockAlgorithm::Blake2s256,
        block_absorbed(r) == Seq::<u8>::empty(),
{
    BlockHasher { inner: Box::new(<blake2::Blake2s256 as digest::Digest>::new()) }
}

/// Relies on `ripemd::Ripemd160::new`: a fresh RIPEMD-160 hasher.
#[verifier::external_body]
fn new_ripemd160() -> (r: BlockHasher)
    ensures
        block_kind(r) == BlockAlgorithm::Ripemd160,
        block_absorbed(r) == Seq::<u8>::empty(),
{
    BlockHasher { inner: Box::new(<ripemd::Ripemd160 as digest::Digest>::new()) }
}

/// Relies on `tiger::Tiger::new`: a fresh Tiger hasher.
#[verifier::external_body]
fn new_tiger() -> (r: BlockHasher)
    ensures
        block_kind(r) == BlockAlgorithm::Tiger,
        block_absorbed(r) == Seq::<u8>::empty(),
{
    BlockHasher { inner: Box::new(<tiger::Tiger as digest::Digest>::new()) }
}

/// Relies on `tiger::Tiger2::new`: a fresh Tiger2 hasher.
#[verifier::external_body]
fn new_tiger2() -> (r: BlockHasher)
    ensures
        block_kind(r) == BlockAlgorithm::Tiger2,
        block_absorbed(r) == Seq::<u8>::empty(),
{
    BlockHasher { inner: Box::new(<tiger::Tiger2 as digest::Digest>::new()) }
}

/// Relies on `whirlpool::Whirlpool::new`: a fresh Whirlpool hasher.
#[verifier::external_body]
fn new_whirlpool() -> (r: BlockHasher)
    ensures
        block_kind(r) == BlockAlgorithm::Whirlpool,
        block_absorbed(r) == Seq::<u8>::empty(),
{
    BlockHasher { inner: Box::new(<whirlpool::Whirlpool as digest::Digest>::new()) }
}

/// Relies on `gost94::Gost94CryptoPro::new`: a fresh GOST R 34.11-94 with the CryptoPro S-box hasher.
#[verifier::external_body]
fn new_gost94_cryptopro() -> (r: BlockHasher)
    ensures
        block_kind(r) == BlockAlgorithm::Gost94CryptoPro,
        block_absorbed(r) == Seq::<u8>::empty(),
{
    BlockHasher { inner: Box::new(<gost94::Gost94CryptoPro as digest::Digest>::new()) }
}

/// Relies on `gost94::Gost94Test::new`: a fresh GOST R 34.11-94 with the test S-box hasher.
#[verifier::external_body]
fn new_gost94_test() -> (r: BlockHasher)
    ensures
        block_kind(r) == BlockAlgorithm::Gost94Test,
        block_absorbed(r) == Seq::<u8>::empty(),
{
    BlockHasher { inner: Box::new(<gost94::Gost94Test as digest::Digest>::new()) }
}

/// A fresh hasher of `kind`, having absorbed nothing.
pub fn new_block_hasher(kind: BlockAlgorithm) -> (r: BlockHasher)
    ensures
        block_kind(r) == kind,
        block_absorbed(r) == Seq::<u8>::empty(),
{
    match kind {
        BlockAlgorithm::Md4 => new_md4(),
        BlockAlgorithm::Sha1 => new_sha1(),
        BlockAlgorithm::Sha256 => new_sha256(),
        BlockAlgorithm::Sha384 => new_sha384(),
        BlockAlgorithm::Sha512 => new_sha512(),
        BlockAlgorithm::Sha3_224 => new_sha3_224(),
        BlockAlgorithm::Sha3_256 => new_sha3_256(),
        BlockAlgorithm::Sha3_384 => new_sha3_384(),
        BlockAlgorithm::Sha3_512 => new_sha3_512(),
        BlockAlgorithm::Blake2b512 => new_blake2b512(),
        BlockAlgorithm::Blake2s256 => new_blake2s256(),
        BlockAlgorithm::Ripemd160 => new_ripemd160(),
        BlockAlgorithm::Tiger => new_tiger(),
        BlockAlgorithm::Tiger2 => new_tiger2(),
        BlockAlgorithm::Whirlpool => new_whirlpool(),
        BlockAlgorithm::Gost94CryptoPro => new_gost94_cryptopro(),
        BlockAlgorithm::Gost94Test => new_gost94_test(),
    }
}

/// Relies on `digest::DynDigest::update`: the hasher absorbs `data` after
/// what it has absorbed before.
#[verifier::external_body]
pub fn block_update(h: &mut BlockHasher, data: &[u8])
    requires
        block_absorbed(*old(h)).len() + data@.len() <= MAX_INPUT_LEN,
    ensures
        block_kind(*final(h)) == block_kind(*old(h)),
        block_absorbed(*final(h)) == block_absorbed(*old(h)) + data@,
{
    h.inner.update(data)
}

/// Relies on `digest::DynDigest::finalize`: the digest of everything the
/// hasher has absorbed, as long as the algorithm's fixed output size.
#[verifier::external_body]
pub fn block_finalize(h: BlockHasher) -> (r: Vec<u8>)
    ensures
        r@.len() == block_output_len(block_kind(h)),
        block_kind(h) == BlockAlgorithm::Md4 ==> r@ == md4_digest(block_absorbed(h)),
        block_kind(h) == BlockAlgorithm::Sha1 ==> r@ == sha1_digest(block_absorbed(h)),
        block_kind(h) == BlockAlgorithm::Sha256 ==> r@ == sha256_digest(block_absorbed(h)),
        block_kind(h) == BlockAlgorithm::Sha384 ==> r@ == sha384_digest(block_absorbed(h)),
        block_kind(h) == BlockAlgorithm::Sha512 ==> r@ == sha512_digest(block_absorbed(h)),
        block_kind(h) == BlockAlgorithm::Sha3_224 ==> r@ == sha3_224_digest(block_absorbed(h)),
        block_kind(h) == BlockAlgorithm::Sha3_256 ==> r@ == sha3_256_digest(block_absorbed(h)),
        block_kind(h) == BlockAlgorithm::Sha3_384 ==> r@ == sha3_384_digest(block_absorbed(h)),
        block_kind(h) == BlockAlgorithm::Sha3_512 ==> r@ == sha3_512_digest(block_absorbed(h)),
        block_kind(h) == BlockAlgorithm::Blake2b512 ==> r@ == blake2b512_digest(block_absorbed(h)),
        block_kind(h) == BlockAlgorithm::Blake2s256 ==> r@ == blake2s256_digest(block_absorbed(h)),
        block_kind(h) == BlockAlgorithm::Ripemd160 ==> r@ == ripemd160_digest(block_absorbed(h)),
        block_kind(h) == BlockAlgorithm::Tiger ==> r@ == tiger_digest(block_absorbed(h)),
        block_kind(h) == BlockAlgorithm::Tiger2 ==> r@ == tiger2_digest(block_absorbed(h)),
        block_kind(h) == BlockAlgorithm::Whirlpool ==> r@ == whirlpool_digest(block_absorbed(h)),
        block_kind(h) == BlockAlgorithm::Gost94CryptoPro ==> r@ == gost94_cryptopro_digest(block_absorbed(h)),
        block_kind(h) == BlockAlgorithm::Gost94Test ==> r@ == gost94_test_digest(block_absorbed(h)),
{
    h.inner.finalize().to_vec()
}

/// `md5::Context`, opaque: described by what it has consumed.
#[verifier::external_type_specification]
#[verifier::external_body]
pub struct ExMd5Context(md5::Context);

/// Digest that `md5::Context` returns after consuming `data`.
pub uninterp spec fn md5_digest(data: Seq<u8>) -> Seq<u8>;

/// The bytes an MD5 context has consumed since it was created.
pub uninterp spec fn md5_absorbed(c: md5::Context) -> Seq<u8>;

/// Relies on `md5::Context::new`: a context that has consumed nothing.
#[verifier::external_body]
pub fn md5_new() -> (r: md5::Context)
    ensures
        md5_absorbed(r) == Seq::<u8>::empty(),
{
    md5::Context::new()
}

/// Relies on `md5::Context::consume`: the context consumes `data` after
/// what it has consumed before.
#[verifier::external_body]
pub fn md5_consume(c: &mut md5::Context, data: &[u8])
    requires
        md5_absorbed(*old(c)).len() + data@.len() <= MAX_INPUT_LEN,
    ensures
        md5_absorbed(*final(c)) == md5_absorbed(*old(c)) + data@,
{
    c.consume(data)
}

/// Relies on `md5::Context::finalize`: the 16-byte digest of everything
/// consumed.
#[verifier::external_body]
pub fn md5_finalize(c: md5::Context) -> (r: Vec<u8>)
    ensures
        r@.len() == 16,
        r@ == md5_digest(md5_absorbed(c)),
{
    c.finalize().0.to_vec()
}

/// `crc32fast::Hasher`, opaque: described by what it has processed.
#[verifier::external_type_specification]
#[verifier::external_body]
pub struct ExCrc32Hasher(crc32fast::Hasher);

/// Checksum that `crc32fast::Hasher` returns after processing `data`.
pub uninterp spec fn crc32_checksum(data: Seq<u8>) -> u32;

/// The bytes a CRC-32 hasher has processed since it was created.
pub uninterp spec fn crc32_absorbed(h: crc32fast::Hasher) -> Seq<u8>;

/// Relies on `crc32fast::Hasher::new`: a hasher that has processed nothing.
pub assume_specification[ crc32fast::Hasher::new ]() -> (r: crc32fast::Hasher)
    ensures
        crc32_absorbed(r) == Seq::<u8>::empty(),
;

/// Relies on `crc32fast::Hasher::update`: the hasher processes `buf` after
/// what it has processed before.
pub assume_specification[ crc32fast::Hasher::update ](h: &mut crc32fast::Hasher, buf: &[u8])
    requires
        crc32_absorbed(*old(h)).len() + buf@.len() <= MAX_INPUT_LEN,
    ensures
        crc32_absorbed(*final(h)) == crc32_absorbed(*old(h)) + buf@,
;

/// Relies on `crc32fast::Hasher::finalize`: the CRC-32 of everything
/// processed.
pub assume_specification[ crc32fast::Hasher::finalize ](h: crc32fast::Hasher) -> (r: u32)
    ensures
        r == crc32_checksum(crc32_absorbed(h)),
;

/// Modulus of the Adler-32 sums.
pub const ADLER_MOD: u32 = 65521;

/// The two Adler-32 sums of `data`: `a` is one plus the sum of the bytes,
/// `b` the sum of the successive values of `a`, both modulo `ADLER_MOD`.
pub open spec fn adler_sums(data: Seq<u8>) -> (u32, u32)
    decreases data.len(),
{
    if data.len() == 0 {
        (1, 0)
    } else {
        let (a, b) = adler_sums(data.drop_last());
        let a2 = ((a + data.last()) % (ADLER_MOD as int)) as u32;
        (a2, ((b + a2) % (ADLER_MOD as int)) as u32)
    }
}

/// The Adler-32 checksum of `data`: `b` in the high half, `a` in the low.
pub open spec fn adler32_checksum(data: Seq<u8>) -> u32 {
    (adler_sums(data).1 * 65536 + adler_sums(data).0) as u32
}

/// `adler32::RollingAdler32`, opaque: described by what it has been fed.
#[verifier::external_type_specification]
#[verifier::external_body]
pub struct ExRollingAdler32(adler32::RollingAdler32);

/// The bytes a rolling Adler-32 has been fed since it was created.
pub uninterp spec fn adler_absorbed(h: adler32::RollingAdler32) -> Seq<u8>;

/// Relies on `adler32::RollingAdler32::new`: sums `a = 1`, `b = 0`, nothing
/// fed.
pub assume_specification[ adler32::RollingAdler32::new ]() -> (r: adler32::RollingAdler32)
    ensures
        adler_absorbed(r) == Seq::<u8>::empty(),
;

/// Relies on `adler32::RollingAdler32::update`: one more byte fed.
pub assume_specification[ adler32::RollingAdler32::update ](h: &mut adler32::RollingAdler32, byte: u8)
    ensures
        adler_absorbed(*final(h)) == adler_absorbed(*old(h)).push(byte),
;

/// Relies on `adler32::RollingAdler32::hash`: `(b << 16) | a` over the sums
/// of what was fed.
pub assume_specification[ adler32::RollingAdler32::hash ](h: &adler32::RollingAdler32) -> (r: u32)
    ensures
        r == adler32_checksum(adler_absorbed(*h)),
;

} // verus!
