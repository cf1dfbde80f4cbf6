//! The two variant families behind one update / finalize interface each.

use vstd::prelude::*;

use crate::algo::{GostVariant, TigerVariant};
use crate::digests::{
    block_absorbed, block_finalize, block_kind, block_update, gost94_cryptopro_digest,
    gost94_test_digest, new_block_hasher, tiger2_digest, tiger_digest, BlockAlgorithm, BlockHasher,
    MAX_INPUT_LEN,
};

verus! {

/// Index whose byte lands at `i` when each 8-byte word of a `len`-byte
/// sequence is reversed; a shorter last word is reversed as it is.
pub open spec fn word_mirror(len: int, i: int) -> int {
    let start = i - i % 8;
    let end = if start + 8 <= len { start + 8 } else { len };
    start + end - 1 - i
}

/// `b` with the byte order reversed inside every 8-byte word.
pub open spec fn reverse_words8_spec(b: Seq<u8>) -> Seq<u8> {
    Seq::new(b.len(), |i: int| b[word_mirror(b.len() as int, i)])
}

/// Reverses the byte order inside every 8-byte word of `bytes`, in place.
pub fn reverse_words8(bytes: &mut [u8])
    ensures
        final(bytes)@ == reverse_words8_spec(old(bytes)@),
{
    let len = bytes.len();
    let mut start: usize = 0;
    while start < len
        invariant
            start <= len,
            start % 8 == 0 || start == len,
            len == bytes@.len(),
            len == old(bytes)@.len(),
            forall|k: int| 0 <= k < start ==> bytes@[k] == old(bytes)@[word_mirror(len as int, k)],
            forall|k: int| start <= k < len ==> bytes@[k] == old(bytes)@[k],
        decreases len - start,
    {
        let end: usize = if len - start >= 8 { start + 8 } else { len };
        let mut i: usize = start;
        let mut j: usize = end - 1;
        while i < j
            invariant
                start <= i,
                i <= j + 1,
                j < end,
                i + j == start + end - 1,
                end <= len,
                len == bytes@.len(),
                forall|k: int| 0 <= k < start ==> bytes@[k] == old(bytes)@[word_mirror(len as int, k)],
                forall|k: int|
                    start <= k < i || j < k < end ==> bytes@[k] == old(bytes)@[start + end - 1 - k],
                forall|k: int| i <= k <= j ==> bytes@[k] == old(bytes)@[k],
                forall|k: int| end <= k < len ==> bytes@[k] == old(bytes)@[k],
            decreases end - i,
        {
            let t = bytes[i];
            bytes[i] = bytes[j];
            bytes[j] = t;
            i = i + 1;
            j = j - 1;
        }
        assert forall|k: int| start <= k < end implies word_mirror(len as int, k) == start + end - 1 - k by {
            assert(k - k % 8 == start);
        }
        start = end;
    }
    assert(bytes@ =~= reverse_words8_spec(old(bytes)@));
}

/// Raw digest of the Tiger hasher of `variant`, in the outside crate's order.
pub open spec fn tiger_raw(variant: TigerVariant, data: Seq<u8>) -> Seq<u8> {
    match variant {
        TigerVariant::Tiger => tiger_digest(data),
        TigerVariant::Tiger2 => tiger2_digest(data),
    }
}

/// Tiger digest as the adapter returns it: each 8-byte word reversed.
pub open spec fn tiger_output(variant: TigerVariant, data: Seq<u8>) -> Seq<u8> {
    reverse_words8_spec(tiger_raw(variant, data))
}

/// GOST R 34.11-94 digest under the S-box of `variant`.
pub open spec fn gost_output(variant: GostVariant, data: Seq<u8>) -> Seq<u8> {
    match variant {
        GostVariant::CryptoPro => gost94_cryptopro_digest(data),
        GostVariant::Test => gost94_test_digest(data),
    }
}

/// A Tiger hasher of either padding variant.
pub enum TigerHasher {
    Tiger(BlockHasher),
    Tiger2(BlockHasher),
}

impl TigerHasher {
    /// Each variant holds a block hasher of the matching algorithm.
    pub open spec fn wf(&self) -> bool {
        match self {
            TigerHasher::Tiger(h) => block_kind(*h) == BlockAlgorithm::Tiger,
            TigerHasher::Tiger2(h) => block_kind(*h) == BlockAlgorithm::Tiger2,
        }
    }

    pub open spec fn variant(&self) -> TigerVariant {
        match self {
            TigerHasher::Tiger(_) => TigerVariant::Tiger,
            TigerHasher::Tiger2(_) => TigerVariant::Tiger2,
        }
    }

    /// The bytes absorbed so far.
    pub open spec fn absorbed(&self) -> Seq<u8> {
        match self {
            TigerHasher::Tiger(h) => block_absorbed(*h),
            TigerHasher::Tiger2(h) => block_absorbed(*h),
        }
    }

    pub fn new(variant: TigerVariant) -> (r: Self)
        ensures
            r.wf(),
            r.variant() == variant,
            r.absorbed() == Seq::<u8>::empty(),
    {
        match variant {
            TigerVariant::Tiger => TigerHasher::Tiger(new_block_hasher(BlockAlgorithm::Tiger)),
            TigerVariant::Tiger2 => TigerHasher::Tiger2(new_block_hasher(BlockAlgorithm::Tiger2)),
        }
    }

    pub fn update(&mut self, data: &[u8])
        requires
            old(self).wf(),
            old(self).absorbed().len() + data@.len() <= MAX_INPUT_LEN,
        ensures
            final(self).wf(),
            final(self).variant() == old(self).variant(),
            final(self).absorbed() == old(self).absorbed() + data@,
    {
        match self {
            TigerHasher::Tiger(h) => block_update(h, data),
            TigerHasher::Tiger2(h) => block_update(h, data),
        }
    }

    /// The 24-byte digest, with each 8-byte word reversed.
    pub fn finalize(self) -> (r: Vec<u8>)
        requires
            self.wf(),
        ensures
            r@ == tiger_output(self.variant(), self.absorbed()),
            r@.len() == 24,
    {
        let mut out = match self {
            TigerHasher::Tiger(h) => block_finalize(h),
            TigerHasher::Tiger2(h) => block_finalize(h),
        };
        reverse_words8(out.as_mut_slice());
        out
    }
}

/// A GOST R 34.11-94 hasher of either S-box.
pub enum GostHasher {
    Crypto(BlockHasher),
    Test(BlockHasher),
}

impl GostHasher {
    /// Each variant holds a block hasher of the matching algorithm.
    pub open spec fn wf(&self) -> bool {
        match self {
            GostHasher::Crypto(h) => block_kind(*h) == BlockAlgorithm::Gost94CryptoPro,
            GostHasher::Test(h) => block_kind(*h) == BlockAlgorithm::Gost94Test,
        }
    }

    pub open spec fn variant(&self) -> GostVariant {
        match self {
            GostHasher::Crypto(_) => GostVariant::CryptoPro,
            GostHasher::Test(_) => GostVariant::Test,
        }
    }

    /// The bytes absorbed so far.
    pub open spec fn absorbed(&self) -> Seq<u8> {
        match self {
            GostHasher::Crypto(h) => block_absorbed(*h),
            GostHasher::Test(h) => block_absorbed(*h),
        }
    }

    pub fn new(variant: GostVariant) -> (r: Self)
        ensures
            r.wf(),
            r.variant() == variant,
            r.absorbed() == Seq::<u8>::empty(),
    {
        match variant {
            GostVariant::CryptoPro => GostHasher::Crypto(
                new_block_hasher(BlockAlgorithm::Gost94CryptoPro),
            ),
            GostVariant::Test => GostHasher::Test(new_block_hasher(BlockAlgorithm::Gost94Test)),
        }
    }

    pub fn update(&mut self, data: &[u8])
        requires
            old(self).wf(),
            old(self).absorbed().len() + data@.len() <= MAX_INPUT_LEN,
        ensures
            final(self).wf(),
            final(self).variant() == old(self).variant(),
            final(self).absorbed() == old(self).absorbed() + data@,
    {
        match self {
            GostHasher::Crypto(h) => block_update(h, data),
            GostHasher::Test(h) => block_update(h, data),
        }
    }

    /// The 32-byte digest, as the outside crate returns it.
    pub fn finalize(self) -> (r: Vec<u8>)
        requires
            self.wf(),
        ensures
            r@ == gost_output(self.variant(), self.absorbed()),
            r@.len() == 32,
    {
        match self {
            GostHasher::Crypto(h) => block_finalize(h),
            GostHasher::Test(h) => block_finalize(h),
        }
    }
}

} // verus!
