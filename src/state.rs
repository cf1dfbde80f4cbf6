//! What the caller keeps between hashing sessions: the selected algorithms,
//! display preferences, and the results shown for each algorithm.

use vstd::prelude::*;

use crate::algo::{Algorithm, GostVariant, TigerVariant};
use crate::encoding::{hex_bytes, hex_decode, is_hex};
use crate::format::{decode_hash, decoded, HashFormat};

verus! {

/// Selections that persist across sessions.
pub struct Preferences {
    pub selected_algorithms: Vec<Algorithm>,
    pub hash_format: HashFormat,
    pub gost_variant: GostVariant,
    pub tiger_variant: TigerVariant,
}

impl Preferences {
    /// MD5, SHA-256 and SHA-512 in lowercase hex, CryptoPro S-box, plain
    /// Tiger padding.
    pub fn defaults() -> (r: Preferences)
        ensures
            r.selected_algorithms@ == seq![Algorithm::MD5, Algorithm::SHA256, Algorithm::SHA512],
            r.hash_format == HashFormat::HexLower,
            r.gost_variant == GostVariant::CryptoPro,
            r.tiger_variant == TigerVariant::Tiger,
    {
        Preferences {
            selected_algorithms: vec![Algorithm::MD5, Algorithm::SHA256, Algorithm::SHA512],
            hash_format: HashFormat::HexLower,
            gost_variant: GostVariant::CryptoPro,
            tiger_variant: TigerVariant::Tiger,
        }
    }

    /// Saved selections, with the default for each setting that was not
    /// saved.
    pub fn from_saved(
        selected_algorithms: Vec<Algorithm>,
        hash_format: Option<HashFormat>,
        gost_variant: Option<GostVariant>,
        tiger_variant: Option<TigerVariant>,
    ) -> (r: Preferences)
        ensures
            r.selected_algorithms@ == selected_algorithms@,
            r.hash_format == (match hash_format {
                Some(f) => f,
                None => HashFormat::HexLower,
            }),
            r.gost_variant == (match gost_variant {
                Some(g) => g,
                None => GostVariant::CryptoPro,
            }),
            r.tiger_variant == (match tiger_variant {
                Some(t) => t,
                None => TigerVariant::Tiger,
            }),
    {
        Preferences {
            selected_algorithms,
            hash_format: match hash_format {
                Some(f) => f,
                None => HashFormat::HexLower,
            },
            gost_variant: match gost_variant {
                Some(g) => g,
                None => GostVariant::CryptoPro,
            },
            tiger_variant: match tiger_variant {
                Some(t) => t,
                None => TigerVariant::Tiger,
            },
        }
    }
}

impl Preferences {
    /// Selects a GOST S-box; the GOST result shown so far was computed with
    /// the previous one and is dropped.
    pub fn set_gost_variant(&mut self, results: &mut HashResults, variant: GostVariant)
        requires
            old(results).wf(),
        ensures
            final(self).gost_variant == variant,
            final(self).tiger_variant == old(self).tiger_variant,
            final(self).hash_format == old(self).hash_format,
            final(self).selected_algorithms@ == old(self).selected_algorithms@,
            final(results).wf(),
            final(results).shown() == old(results).shown().remove(Algorithm::GOST),
    {
        self.gost_variant = variant;
        results.remove(Algorithm::GOST);
    }

    /// Selects a Tiger padding; the Tiger result shown so far was computed
    /// with the previous one and is dropped.
    pub fn set_tiger_variant(&mut self, results: &mut HashResults, variant: TigerVariant)
        requires
            old(results).wf(),
        ensures
            final(self).tiger_variant == variant,
            final(self).gost_variant == old(self).gost_variant,
            final(self).hash_format == old(self).hash_format,
            final(self).selected_algorithms@ == old(self).selected_algorithms@,
            final(results).wf(),
            final(results).shown() == old(results).shown().remove(Algorithm::TIGER192),
    {
        self.tiger_variant = variant;
        results.remove(Algorithm::TIGER192);
    }
}

/// `s` without any occurrence of `a`, order kept.
pub open spec fn without(s: Seq<Algorithm>, a: Algorithm) -> Seq<Algorithm>
    decreases s.len(),
{
    if s.len() == 0 {
        s
    } else if s.last() == a {
        without(s.drop_last(), a)
    } else {
        without(s.drop_last(), a).push(s.last())
    }
}

/// Selects `algorithm` (appended once) or deselects it (every occurrence
/// removed).
pub fn toggle_algorithm(selected: &mut Vec<Algorithm>, algorithm: Algorithm, enabled: bool)
    ensures
        enabled && old(selected)@.contains(algorithm) ==> final(selected)@ == old(selected)@,
        enabled && !old(selected)@.contains(algorithm) ==> final(selected)@ == old(selected)@.push(
            algorithm,
        ),
        !enabled ==> final(selected)@ == without(old(selected)@, algorithm),
{
    if enabled {
        let mut i: usize = 0;
        while i < selected.len()
            invariant
                i <= selected@.len(),
                enabled,
                selected@ == old(selected)@,
                forall|k: int| 0 <= k < i ==> selected@[k] != algorithm,
            decreases selected@.len() - i,
        {
            if selected[i] == algorithm {
                assert(selected@[i as int] == algorithm);
                return;
            }
            i = i + 1;
        }
        selected.push(algorithm);
    } else {
        let mut kept: Vec<Algorithm> = Vec::new();
        let mut i: usize = 0;
        while i < selected.len()
            invariant
                i <= selected@.len(),
                selected@ == old(selected)@,
                kept@ == without(selected@.subrange(0, i as int), algorithm),
            decreases selected@.len() - i,
        {
            assert(selected@.subrange(0, i + 1).drop_last() == selected@.subrange(0, i as int));
            if selected[i] != algorithm {
                kept.push(selected[i]);
            }
            i = i + 1;
        }
        assert(selected@.subrange(0, selected@.len() as int) == selected@);
        *selected = kept;
    }
}

/// Position of an algorithm in the results table.
pub open spec fn slot_of(a: Algorithm) -> int {
    match a {
        Algorithm::MD4 => 0,
        Algorithm::MD5 => 1,
        Algorithm::SHA1 => 2,
        Algorithm::SHA256 => 3,
        Algorithm::SHA384 => 4,
        Algorithm::SHA512 => 5,
        Algorithm::SHA3_224 => 6,
        Algorithm::SHA3_256 => 7,
        Algorithm::SHA3_384 => 8,
        Algorithm::SHA3_512 => 9,
        Algorithm::BLAKE2b => 10,
        Algorithm::BLAKE2s => 11,
        Algorithm::RIPEMD160 => 12,
        Algorithm::TIGER192 => 13,
        Algorithm::WHIRLPOOL => 14,
        Algorithm::GOST => 15,
        Algorithm::CRC32 => 16,
        Algorithm::ADLER32 => 17,
    }
}

/// Number of slots in the results table, one per algorithm.
pub const SLOT_COUNT: usize = 18;

proof fn lemma_slot_injective(a: Algorithm, b: Algorithm)
    ensures
        0 <= slot_of(a) < SLOT_COUNT,
        slot_of(a) == slot_of(b) ==> a == b,
{
}

fn slot(a: Algorithm) -> (r: usize)
    ensures
        r == slot_of(a),
{
    match a {
        Algorithm::MD4 => 0,
        Algorithm::MD5 => 1,
        Algorithm::SHA1 => 2,
        Algorithm::SHA256 => 3,
        Algorithm::SHA384 => 4,
        Algorithm::SHA512 => 5,
        Algorithm::SHA3_224 => 6,
        Algorithm::SHA3_256 => 7,
        Algorithm::SHA3_384 => 8,
        Algorithm::SHA3_512 => 9,
        Algorithm::BLAKE2b => 10,
        Algorithm::BLAKE2s => 11,
        Algorithm::RIPEMD160 => 12,
        Algorithm::TIGER192 => 13,
        Algorithm::WHIRLPOOL => 14,
        Algorithm::GOST => 15,
        Algorithm::CRC32 => 16,
        Algorithm::ADLER32 => 17,
    }
}

/// The text shown for a freshly computed result: a hex digest re-encoded
/// in `format`, anything else (an error) as it is.
pub open spec fn displayed(format: HashFormat, raw: Seq<char>) -> Seq<char> {
    if is_hex(raw) {
        format.render(hex_bytes(raw))
    } else {
        raw
    }
}

/// A shown result after the format changed: re-encoded where it decodes
/// as hex or base64, kept as it is otherwise.
pub open spec fn converted(format: HashFormat, shown: Seq<char>) -> Seq<char> {
    match decoded(shown) {
        Some(b) => format.render(b),
        None => shown,
    }
}

/// The results map after a batch is stored, entry by entry.
pub open spec fn with_batch(
    m: Map<Algorithm, Seq<char>>,
    batch: Seq<(Algorithm, Seq<char>)>,
    format: HashFormat,
) -> Map<Algorithm, Seq<char>>
    decreases batch.len(),
{
    if batch.len() == 0 {
        m
    } else {
        with_batch(m, batch.drop_last(), format).insert(
            batch.last().0,
            displayed(format, batch.last().1),
        )
    }
}

/// The result text shown for each algorithm; at most one per algorithm.
pub struct HashResults {
    slots: Vec<Option<String>>,
}

impl HashResults {
    pub closed spec fn wf(&self) -> bool {
        self.slots@.len() == SLOT_COUNT
    }

    pub closed spec fn shown(&self) -> Map<Algorithm, Seq<char>> {
        Map::new(
            |a: Algorithm| self.slots@[slot_of(a)] is Some,
            |a: Algorithm| self.slots@[slot_of(a)]->Some_0@,
        )
    }

    /// No result for any algorithm.
    pub fn new() -> (r: HashResults)
        ensures
            r.wf(),
            r.shown() == Map::<Algorithm, Seq<char>>::empty(),
    {
        let mut slots: Vec<Option<String>> = Vec::new();
        let mut i: usize = 0;
        while i < SLOT_COUNT
            invariant
                i <= SLOT_COUNT,
                slots@.len() == i,
                forall|k: int| 0 <= k < i ==> slots@[k] is None,
            decreases SLOT_COUNT - i,
        {
            slots.push(None);
            i = i + 1;
        }
        let r = HashResults { slots };
        assert(r.shown() =~= Map::<Algorithm, Seq<char>>::empty());
        r
    }

    /// The shown result of `algorithm`, if any.
    pub fn get(&self, algorithm: Algorithm) -> (r: Option<&String>)
        requires
            self.wf(),
        ensures
            r is Some <==> self.shown().contains_key(algorithm),
            r is Some ==> r->Some_0@ == self.shown()[algorithm],
    {
        proof {
            lemma_slot_injective(algorithm, algorithm);
        }
        self.slots[slot(algorithm)].as_ref()
    }

    /// Shows `text` for `algorithm`, replacing what was shown before.
    pub fn insert(&mut self, algorithm: Algorithm, text: String)
        requires
            old(self).wf(),
        ensures
            final(self).wf(),
            final(self).shown() == old(self).shown().insert(algorithm, text@),
    {
        proof {
            lemma_slot_injective(algorithm, algorithm);
        }
        let ghost expected = self.shown().insert(algorithm, text@);
        let i = slot(algorithm);
        self.slots.set(i, Some(text));
        assert forall|b: Algorithm| #![auto] b != algorithm implies slot_of(b) != slot_of(algorithm) by {
            lemma_slot_injective(b, algorithm);
        }
        assert(self.shown() =~= expected);
    }

    /// Drops the result of `algorithm`; a variant change for GOST or Tiger
    /// makes the stored digest stale.
    pub fn remove(&mut self, algorithm: Algorithm)
        requires
            old(self).wf(),
        ensures
            final(self).wf(),
            final(self).shown() == old(self).shown().remove(algorithm),
    {
        proof {
            lemma_slot_injective(algorithm, algorithm);
        }
        let ghost expected = self.shown().remove(algorithm);
        let i = slot(algorithm);
        self.slots.set(i, None);
        assert forall|b: Algorithm| #![auto] b != algorithm implies slot_of(b) != slot_of(algorithm) by {
            lemma_slot_injective(b, algorithm);
        }
        assert(self.shown() =~= expected);
    }

    /// Stores a batch of fresh results in order: each hex digest shown in
    /// `format`, each other text as it is.
    pub fn store_computed(&mut self, batch: Vec<(Algorithm, String)>, format: HashFormat)
        requires
            old(self).wf(),
        ensures
            final(self).wf(),
            final(self).shown() == with_batch(
                old(self).shown(),
                batch@.map_values(|p: (Algorithm, String)| (p.0, p.1@)),
                format,
            ),
    {
        let ghost all = batch@.map_values(|p: (Algorithm, String)| (p.0, p.1@));
        let mut i: usize = 0;
        while i < batch.len()
            invariant
                i <= batch@.len(),
                all == batch@.map_values(|p: (Algorithm, String)| (p.0, p.1@)),
                self.wf(),
                self.shown() == with_batch(old(self).shown(), all.subrange(0, i as int), format),
            decreases batch@.len() - i,
        {
            let algorithm = batch[i].0;
            let raw = &batch[i].1;
            let text = match hex_decode(raw.as_str()) {
                Ok(bytes) => format.format_hash(bytes.as_slice()),
                Err(_) => raw.clone(),
            };
            assert(all.subrange(0, i + 1).drop_last() == all.subrange(0, i as int));
            self.insert(algorithm, text);
            i = i + 1;
        }
        assert(all.subrange(0, all.len() as int) == all);
    }

    /// Re-encodes every shown result in `format` where it decodes as hex or
    /// base64.
    pub fn reformat(&mut self, format: HashFormat)
        requires
            old(self).wf(),
        ensures
            final(self).wf(),
            final(self).shown().dom() == old(self).shown().dom(),
            forall|a: Algorithm| #[trigger]
                final(self).shown().contains_key(a) ==> final(self).shown()[a] == converted(
                    format,
                    old(self).shown()[a],
                ),
    {
        let mut i: usize = 0;
        while i < SLOT_COUNT
            invariant
                i <= SLOT_COUNT,
                self.slots@.len() == SLOT_COUNT,
                old(self).slots@.len() == SLOT_COUNT,
                forall|k: int| 0 <= k < SLOT_COUNT ==> (#[trigger] self.slots@[k] is Some) == (old(self).slots@[k] is Some),
                forall|k: int| 0 <= k < i && #[trigger] self.slots@[k] is Some ==> self.slots@[k]->Some_0@ == converted(format, old(self).slots@[k]->Some_0@),
                forall|k: int| i <= k < SLOT_COUNT ==> #[trigger] self.slots@[k] == old(self).slots@[k],
            decreases SLOT_COUNT - i,
        {
            let next = match &self.slots[i] {
                Some(shown) => match decode_hash(shown.as_str()) {
                    Some(bytes) => Some(format.format_hash(bytes.as_slice())),
                    None => Some(shown.clone()),
                },
                None => None,
            };
            self.slots.set(i, next);
            i = i + 1;
        }
        assert forall|a: Algorithm| 0 <= #[trigger] slot_of(a) < SLOT_COUNT by {
            lemma_slot_injective(a, a);
        }
        assert(self.shown().dom() =~= old(self).shown().dom());
    }
}

} // verus!
