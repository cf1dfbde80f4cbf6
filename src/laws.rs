//! Properties that relate several operations of the library.

use vstd::prelude::*;

use crate::adapters::{reverse_words8_spec, tiger_output, tiger_raw, word_mirror};
use crate::algo::{Algorithm, GostVariant, TigerVariant};
use crate::engine::digest_hex;
use crate::multi::{digest_results, read_error_text, uniform_results, unique_in_order};
use crate::encoding::is_hex;

verus! {

/// The bytes a `MultiHasher` has been fed after `update` was called with
/// each chunk of `chunks`, in order.
pub open spec fn fed_after(chunks: Seq<Seq<u8>>) -> Seq<u8>
    decreases chunks.len(),
{
    if chunks.len() == 0 {
        Seq::empty()
    } else {
        fed_after(chunks.drop_last()) + chunks.last()
    }
}

/// Wherever the chunk boundaries fall, a chunked pass that feeds `chunks`
/// in order yields the result set that one contiguous buffer holding their
/// concatenation yields: the I/O strategy never changes a digest.
pub proof fn law_strategy_independent(
    algorithms: Seq<Algorithm>,
    gost: GostVariant,
    tiger: TigerVariant,
    chunks: Seq<Seq<u8>>,
)
    ensures
        digest_results(algorithms, gost, tiger, fed_after(chunks)) == digest_results(
            algorithms,
            gost,
            tiger,
            chunks.flatten(),
        ),
{
    lemma_fed_after_is_flatten(chunks);
}

proof fn lemma_fed_after_is_flatten(chunks: Seq<Seq<u8>>)
    ensures
        fed_after(chunks) == chunks.flatten(),
    decreases chunks.len(),
{
    if chunks.len() > 0 {
        lemma_fed_after_is_flatten(chunks.drop_last());
        chunks.drop_last().lemma_flatten_push(chunks.last());
        assert(chunks.drop_last().push(chunks.last()) == chunks);
    }
}

/// The GOST variant affects only the GOST digest, and the Tiger variant
/// only the Tiger digest.
pub proof fn law_variant_isolation(
    alg: Algorithm,
    gost_a: GostVariant,
    gost_b: GostVariant,
    tiger_a: TigerVariant,
    tiger_b: TigerVariant,
    data: Seq<u8>,
)
    ensures
        alg != Algorithm::GOST ==> digest_hex(alg, gost_a, tiger_a, data) == digest_hex(
            alg,
            gost_b,
            tiger_a,
            data,
        ),
        alg != Algorithm::TIGER192 ==> digest_hex(alg, gost_a, tiger_a, data) == digest_hex(
            alg,
            gost_a,
            tiger_b,
            data,
        ),
        alg != Algorithm::GOST && alg != Algorithm::TIGER192 ==> digest_hex(
            alg,
            gost_a,
            tiger_a,
            data,
        ) == digest_hex(alg, gost_b, tiger_b, data),
{
}

proof fn lemma_word_mirror_involution(len: int, i: int)
    requires
        0 <= i < len,
    ensures
        0 <= word_mirror(len, i) < len,
        word_mirror(len, word_mirror(len, i)) == i,
{
    let start = i - i % 8;
    let end = if start + 8 <= len { start + 8 } else { len };
    let j = start + end - 1 - i;
    assert(start % 8 == 0);
    assert(start <= j < end);
    assert(j - j % 8 == start);
}

/// Reversing the bytes of each 8-byte word twice restores them.
pub proof fn law_reverse_words8_involution(b: Seq<u8>)
    ensures
        reverse_words8_spec(reverse_words8_spec(b)) == b,
{
    let once = reverse_words8_spec(b);
    assert forall|i: int| 0 <= i < b.len() implies #[trigger] reverse_words8_spec(once)[i] == b[i] by {
        lemma_word_mirror_involution(b.len() as int, i);
    }
    assert(reverse_words8_spec(once) =~= b);
}

/// The Tiger digest the library returns, regrouped into 8-byte words and
/// each word reversed again, is the outside hasher's raw digest.
pub proof fn law_tiger_word_order(variant: TigerVariant, data: Seq<u8>)
    ensures
        reverse_words8_spec(tiger_output(variant, data)) == tiger_raw(variant, data),
{
    law_reverse_words8_involution(tiger_raw(variant, data));
}

/// After a read failure no entry of the result set can pass for a digest:
/// every entry carries the same error text, which is not hexadecimal.
pub proof fn law_read_failure_hides_digests(algorithms: Seq<Algorithm>, cause: Seq<char>)
    ensures
        forall|i: int|
            0 <= i < uniform_results(algorithms, read_error_text(cause)).len() ==> {
                &&& (#[trigger] uniform_results(algorithms, read_error_text(cause))[i]).0
                    == unique_in_order(algorithms)[i]
                &&& uniform_results(algorithms, read_error_text(cause))[i].1 == read_error_text(
                    cause,
                )
            },
        !is_hex(read_error_text(cause)),
{
    reveal_strlit("Error reading file: ");
    assert(read_error_text(cause)[1] == 'r');
}

} // verus!
