//! One pass over a byte source feeding every requested algorithm, and the
//! result sets the engine hands back.

use vstd::prelude::*;

use crate::algo::{Algorithm, GostVariant, TigerVariant};
use crate::digests::MAX_INPUT_LEN;
use crate::engine::{digest_hex, AlgorithmHasher};

verus! {

/// `s` without repetitions, each algorithm where it first occurs.
pub open spec fn unique_in_order(s: Seq<Algorithm>) -> Seq<Algorithm>
    decreases s.len(),
{
    if s.len() == 0 {
        Seq::empty()
    } else {
        let u = unique_in_order(s.drop_last());
        if u.contains(s.last()) {
            u
        } else {
            u.push(s.last())
        }
    }
}

/// Every algorithm of `unique_in_order(s)` occurs once, and exactly the
/// algorithms of `s` occur.
pub proof fn lemma_unique_in_order(s: Seq<Algorithm>)
    ensures
        unique_in_order(s).no_duplicates(),
        forall|a: Algorithm| unique_in_order(s).contains(a) <==> s.contains(a),
    decreases s.len(),
{
    if s.len() > 0 {
        lemma_unique_in_order(s.drop_last());
        let u = unique_in_order(s.drop_last());
        assert forall|a: Algorithm| s.contains(a) <==> (s.drop_last().contains(a) || a == s.last()) by {
            if s.contains(a) {
                let k = choose|k: int| 0 <= k < s.len() && s[k] == a;
                if k < s.len() - 1 {
                    assert(s.drop_last()[k] == a);
                }
            }
            if s.drop_last().contains(a) {
                let k = choose|k: int| 0 <= k < s.len() - 1 && s.drop_last()[k] == a;
                assert(s[k] == a);
            }
            if a == s.last() {
                assert(s[s.len() - 1] == a);
            }
        }
        if !u.contains(s.last()) {
            let v = u.push(s.last());
            assert forall|a: Algorithm| v.contains(a) <==> (u.contains(a) || a == s.last()) by {
                if v.contains(a) {
                    let k = choose|k: int| 0 <= k < v.len() && v[k] == a;
                    if k < u.len() {
                        assert(u[k] == a);
                    }
                }
                if u.contains(a) {
                    let k = choose|k: int| 0 <= k < u.len() && u[k] == a;
                    assert(v[k] == a);
                }
                if a == s.last() {
                    assert(v[v.len() - 1] == a);
                }
            }
        }
    }
}

fn contains_algorithm(v: &Vec<Algorithm>, a: Algorithm) -> (r: bool)
    ensures
        r == v@.contains(a),
{
    let mut i: usize = 0;
    while i < v.len()
        invariant
            i <= v@.len(),
            forall|k: int| 0 <= k < i ==> v@[k] != a,
        decreases v@.len() - i,
    {
        if v[i] == a {
            assert(v@[i as int] == a);
            return true;
        }
        i = i + 1;
    }
    false
}

/// The requested algorithms as a set: each once, in order of first request.
pub fn requested_algorithms(algorithms: &Vec<Algorithm>) -> (r: Vec<Algorithm>)
    ensures
        r@ == unique_in_order(algorithms@),
        r@.no_duplicates(),
        forall|a: Algorithm| r@.contains(a) <==> algorithms@.contains(a),
{
    let mut r: Vec<Algorithm> = Vec::new();
    let mut i: usize = 0;
    while i < algorithms.len()
        invariant
            i <= algorithms@.len(),
            r@ == unique_in_order(algorithms@.subrange(0, i as int)),
        decreases algorithms@.len() - i,
    {
        let a = algorithms[i];
        assert(algorithms@.subrange(0, i + 1).drop_last() == algorithms@.subrange(0, i as int));
        if !contains_algorithm(&r, a) {
            r.push(a);
        }
        i = i + 1;
    }
    assert(algorithms@.subrange(0, algorithms@.len() as int) == algorithms@);
    proof {
        lemma_unique_in_order(algorithms@);
    }
    r
}

/// Algorithm and result text of each entry of a result set.
pub open spec fn results_view(r: Seq<(Algorithm, String)>) -> Seq<(Algorithm, Seq<char>)> {
    r.map_values(|p: (Algorithm, String)| (p.0, p.1@))
}

/// Each requested algorithm, once, with its digest of `data` in hex.
pub open spec fn digest_results(
    algorithms: Seq<Algorithm>,
    gost: GostVariant,
    tiger: TigerVariant,
    data: Seq<u8>,
) -> Seq<(Algorithm, Seq<char>)> {
    unique_in_order(algorithms).map_values(
        |a: Algorithm| (a, digest_hex(a, gost, tiger, data)),
    )
}

/// Each requested algorithm, once, with the same text.
pub open spec fn uniform_results(algorithms: Seq<Algorithm>, text: Seq<char>) -> Seq<
    (Algorithm, Seq<char>),
> {
    unique_in_order(algorithms).map_values(|a: Algorithm| (a, text))
}

/// Result text for a file that could not be opened or inspected.
pub open spec fn access_error_text(cause: Seq<char>) -> Seq<char> {
    "Error: "@ + cause
}

/// Result text for a read that failed part-way through the file.
pub open spec fn read_error_text(cause: Seq<char>) -> Seq<char> {
    "Error reading file: "@ + cause
}

fn prefixed(prefix: &str, cause: &str) -> (r: String)
    ensures
        r@ == prefix@ + cause@,
{
    let mut s = String::from_str(prefix);
    s.append(cause);
    s
}

/// Every algorithm of `algorithms` paired with `text`.
fn uniform(algorithms: &Vec<Algorithm>, text: &String) -> (r: Vec<(Algorithm, String)>)
    ensures
        results_view(r@) == algorithms@.map_values(|a: Algorithm| (a, text@)),
{
    let mut r: Vec<(Algorithm, String)> = Vec::new();
    let mut i: usize = 0;
    while i < algorithms.len()
        invariant
            i <= algorithms@.len(),
            r@.len() == i,
            results_view(r@) == algorithms@.subrange(0, i as int).map_values(
                |a: Algorithm| (a, text@),
            ),
        decreases algorithms@.len() - i,
    {
        let ghost prev = results_view(r@);
        let t = text.clone();
        r.push((algorithms[i], t));
        assert(results_view(r@) =~= prev.push((algorithms@[i as int], text@)));
        assert(algorithms@.subrange(0, i + 1).map_values(|a: Algorithm| (a, text@))
            =~= algorithms@.subrange(0, i as int).map_values(|a: Algorithm| (a, text@)).push(
            (algorithms@[i as int], text@),
        ));
        i = i + 1;
    }
    assert(algorithms@.subrange(0, algorithms@.len() as int) == algorithms@);
    r
}

/// The result set when the file cannot be opened or its size read: every
/// requested algorithm carries `"Error: "` and the cause.
pub fn error_results(algorithms: &Vec<Algorithm>, cause: &str) -> (r: Vec<(Algorithm, String)>)
    ensures
        results_view(r@) == uniform_results(algorithms@, access_error_text(cause@)),
{
    let text = prefixed("Error: ", cause);
    let unique = requested_algorithms(algorithms);
    uniform(&unique, &text)
}

/// The result set when reading the file failed, whether during a whole
/// read or part-way through a chunked pass: every requested algorithm
/// carries `"Error reading file: "` and the cause, and no digest is given.
pub fn read_error_results(algorithms: &Vec<Algorithm>, cause: &str) -> (r: Vec<(Algorithm, String)>)
    ensures
        results_view(r@) == uniform_results(algorithms@, read_error_text(cause@)),
{
    let text = prefixed("Error reading file: ", cause);
    let unique = requested_algorithms(algorithms);
    uniform(&unique, &text)
}

/// The active hashers of one session, all fed the same bytes.
pub struct MultiHasher {
    hashers: Vec<AlgorithmHasher>,
    gost: GostVariant,
    tiger: TigerVariant,
    requested: Ghost<Seq<Algorithm>>,
    fed: Ghost<Seq<u8>>,
}

impl MultiHasher {
    /// The algorithms as they were requested.
    pub closed spec fn requested(&self) -> Seq<Algorithm> {
        self.requested@
    }

    pub closed spec fn gost(&self) -> GostVariant {
        self.gost
    }

    pub closed spec fn tiger(&self) -> TigerVariant {
        self.tiger
    }

    /// Every byte fed so far, in order.
    pub closed spec fn fed(&self) -> Seq<u8> {
        self.fed@
    }

    /// One hasher per distinct requested algorithm, in order of request,
    /// each having consumed exactly the bytes fed.
    pub closed spec fn wf(&self) -> bool {
        &&& self.hashers@.len() == unique_in_order(self.requested@).len()
        &&& self.fed@.len() <= MAX_INPUT_LEN
        &&& forall|i: int|
            0 <= i < self.hashers@.len() ==> {
                &&& (#[trigger] self.hashers@[i]).wf()
                &&& self.hashers@[i].algorithm() == unique_in_order(self.requested@)[i]
                &&& self.hashers@[i].gost() == self.gost
                &&& self.hashers@[i].tiger() == self.tiger
                &&& self.hashers@[i].absorbed() == self.fed@
            }
    }

    /// A hasher for each distinct algorithm of `algorithms` and nothing
    /// else; nothing fed yet.
    pub fn new(algorithms: &Vec<Algorithm>, gost_variant: GostVariant, tiger_variant: TigerVariant) -> (r: Self)
        ensures
            r.wf(),
            r.requested() == algorithms@,
            r.gost() == gost_variant,
            r.tiger() == tiger_variant,
            r.fed() == Seq::<u8>::empty(),
    {
        let unique = requested_algorithms(algorithms);
        let mut hashers: Vec<AlgorithmHasher> = Vec::new();
        let mut i: usize = 0;
        while i < unique.len()
            invariant
                i <= unique@.len(),
                unique@ == unique_in_order(algorithms@),
                hashers@.len() == i,
                forall|k: int|
                    0 <= k < i ==> {
                        &&& (#[trigger] hashers@[k]).wf()
                        &&& hashers@[k].algorithm() == unique@[k]
                        &&& hashers@[k].gost() == gost_variant
                        &&& hashers@[k].tiger() == tiger_variant
                        &&& hashers@[k].absorbed() == Seq::<u8>::empty()
                    },
            decreases unique@.len() - i,
        {
            hashers.push(AlgorithmHasher::new(unique[i], gost_variant, tiger_variant));
            i = i + 1;
        }
        MultiHasher {
            hashers,
            gost: gost_variant,
            tiger: tiger_variant,
            requested: Ghost(algorithms@),
            fed: Ghost(Seq::empty()),
        }
    }

    /// Feeds `chunk` to every active hasher, after what was fed before.
    pub fn update(&mut self, chunk: &[u8])
        requires
            old(self).wf(),
            old(self).fed().len() + chunk@.len() <= MAX_INPUT_LEN,
        ensures
            final(self).wf(),
            final(self).requested() == old(self).requested(),
            final(self).gost() == old(self).gost(),
            final(self).tiger() == old(self).tiger(),
            final(self).fed() == old(self).fed() + chunk@,
    {
        let ghost before = self.fed@;
        let ghost unique = unique_in_order(self.requested@);
        let mut i: usize = 0;
        while i < self.hashers.len()
            invariant
                i <= self.hashers@.len(),
                self.hashers@.len() == unique.len(),
                unique == unique_in_order(self.requested@),
                self.fed@ == before,
                self.requested@ == old(self).requested@,
                self.gost == old(self).gost,
                self.tiger == old(self).tiger,
                before.len() + chunk@.len() <= MAX_INPUT_LEN,
                forall|k: int|
                    0 <= k < self.hashers@.len() ==> {
                        &&& (#[trigger] self.hashers@[k]).wf()
                        &&& self.hashers@[k].algorithm() == unique[k]
                        &&& self.hashers@[k].gost() == self.gost
                        &&& self.hashers@[k].tiger() == self.tiger
                        &&& self.hashers@[k].absorbed() == if k < i {
                            before + chunk@
                        } else {
                            before
                        }
                    },
            decreases self.hashers@.len() - i,
        {
            self.hashers[i].update(chunk);
            i = i + 1;
        }
        self.fed = Ghost(before + chunk@);
    }

    /// Each distinct requested algorithm with its digest of every byte fed.
    pub fn finish(self) -> (r: Vec<(Algorithm, String)>)
        requires
            self.wf(),
        ensures
            results_view(r@) == digest_results(self.requested(), self.gost(), self.tiger(), self.fed()),
    {
        let ghost unique = unique_in_order(self.requested@);
        let ghost target = digest_results(self.requested@, self.gost, self.tiger, self.fed@);
        let mut hashers = self.hashers;
        let mut r: Vec<(Algorithm, String)> = Vec::new();
        let ghost n = hashers@.len();
        while hashers.len() > 0
            invariant
                n == unique.len(),
                target == unique.map_values(
                    |a: Algorithm| (a, digest_hex(a, self.gost, self.tiger, self.fed@)),
                ),
                r@.len() + hashers@.len() == n,
                results_view(r@) == target.subrange(0, r@.len() as int),
                forall|k: int|
                    0 <= k < hashers@.len() ==> {
                        &&& (#[trigger] hashers@[k]).wf()
                        &&& hashers@[k].algorithm() == unique[r@.len() + k]
                        &&& hashers@[k].gost() == self.gost
                        &&& hashers@[k].tiger() == self.tiger
                        &&& hashers@[k].absorbed() == self.fed@
                    },
            decreases hashers@.len(),
        {
            let h = hashers.remove(0);
            let alg = h.current_algorithm();
            let text = h.finish();
            r.push((alg, text));
            assert(results_view(r@) =~= target.subrange(0, r@.len() as int));
        }
        r
    }

    /// The result set after a read failed part-way: every requested
    /// algorithm carries the same error and no digest is returned.
    pub fn fail(self, cause: &str) -> (r: Vec<(Algorithm, String)>)
        requires
            self.wf(),
        ensures
            results_view(r@) == uniform_results(self.requested(), read_error_text(cause@)),
    {
        let text = prefixed("Error reading file: ", cause);
        let ghost requested = self.requested@;
        let mut algorithms: Vec<Algorithm> = Vec::new();
        let mut i: usize = 0;
        while i < self.hashers.len()
            invariant
                i <= self.hashers@.len(),
                self.wf(),
                algorithms@ == unique_in_order(self.requested@).subrange(0, i as int),
            decreases self.hashers@.len() - i,
        {
            algorithms.push(self.hashers[i].current_algorithm());
            i = i + 1;
            assert(algorithms@ =~= unique_in_order(self.requested@).subrange(0, i as int));
        }
        assert(algorithms@ =~= unique_in_order(self.requested@));
        uniform(&algorithms, &text)
    }
}

/// Every requested algorithm's digest of one contiguous buffer, computed in
/// one pass that feeds the whole buffer to each hasher.
pub fn calculate_hashes_from_buffer(
    data: &[u8],
    algorithms: &Vec<Algorithm>,
    gost_variant: GostVariant,
    tiger_variant: TigerVariant,
) -> (r: Vec<(Algorithm, String)>)
    requires
        data@.len() <= MAX_INPUT_LEN,
    ensures
        results_view(r@) == digest_results(algorithms@, gost_variant, tiger_variant, data@),
{
    let mut engine = MultiHasher::new(algorithms, gost_variant, tiger_variant);
    engine.update(data);
    assert(engine.fed() == data@);
    engine.finish()
}

/// The units of work that completed, in order; a unit that failed leaves
/// no entry.
pub open spec fn completed<T>(units: Seq<Option<T>>) -> Seq<T>
    decreases units.len(),
{
    if units.len() == 0 {
        Seq::empty()
    } else {
        let rest = completed(units.drop_last());
        match units.last() {
            Some(x) => rest.push(x),
            None => rest,
        }
    }
}

/// Gathers the results of the units that completed.
pub fn collect_completed(units: Vec<Option<(Algorithm, String)>>) -> (r: Vec<(Algorithm, String)>)
    ensures
        r@ == completed(units@),
{
    let mut r: Vec<(Algorithm, String)> = Vec::new();
    let mut units = units;
    let ghost all = units@;
    let mut taken: usize = 0;
    assert(all.len() == units.len());
    while units.len() > 0
        invariant
            taken + units@.len() == all.len(),
            all.len() <= usize::MAX,
            units@ == all.subrange(taken as int, all.len() as int),
            r@ == completed(all.subrange(0, taken as int)),
        decreases units@.len(),
    {
        let unit = units.remove(0);
        assert(all.subrange(0, taken + 1).drop_last() == all.subrange(0, taken as int));
        match unit {
            Some(x) => r.push(x),
            None => {},
        }
        taken = taken + 1;
    }
    assert(all.subrange(0, all.len() as int) == all);
    r
}

} // verus!
