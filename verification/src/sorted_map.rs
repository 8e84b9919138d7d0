//! A map from string keys to values kept as a list in increasing key order,
//! the order `BTreeMap<String, _>` iterates in. Keys are compared by code
//! point, which for UTF-8 text is the byte order `String` sorts by.

use vstd::prelude::*;

use crate::text::{lemma_lex_irreflexive, lemma_lex_total, lemma_lex_transitive, lex_less, str_eq, str_less};

verus! {


/// Whether the keys `k` are in strictly increasing order.
pub open spec fn strictly_increasing(k: Seq<Seq<char>>) -> bool {
    forall|i: int, j: int| 0 <= i < j < k.len() ==> lex_less(#[trigger] k[i], #[trigger] k[j])
}

/// The keys of a list of entries, in order.
pub open spec fn keys_of<V>(e: Seq<(String, V)>) -> Seq<Seq<char>> {
    e.map_values(|p: (String, V)| p.0@)
}

/// Whether entry `i` of `e` has key `k`.
pub open spec fn has_key_at<V>(e: Seq<(String, V)>, i: int, k: Seq<char>) -> bool {
    0 <= i < e.len() && e[i].0@ == k
}

/// The map a list of entries with distinct keys stands for.
pub open spec fn entries_map<V>(e: Seq<(String, V)>) -> Map<Seq<char>, V> {
    Map::new(
        |k: Seq<char>| exists|i: int| has_key_at(e, i, k),
        |k: Seq<char>| e[choose|i: int| has_key_at(e, i, k)].1,
    )
}

/// Increasing keys are distinct, so each key sits at exactly one index.
pub proof fn lemma_increasing_unique<V>(e: Seq<(String, V)>, i: int, j: int)
    requires
        strictly_increasing(keys_of(e)),
        has_key_at(e, i, e[j].0@),
        0 <= j < e.len(),
    ensures
        i == j,
{
    let k = keys_of(e);
    assert(k[i] == e[i].0@ && k[j] == e[j].0@);
    lemma_lex_irreflexive(k[j]);
    if i < j {
        assert(lex_less(k[i], k[j]));
    } else if j < i {
        assert(lex_less(k[j], k[i]));
    }
}

/// In a list with increasing keys, the map holds each entry's value.
pub proof fn lemma_entries_map_at<V>(e: Seq<(String, V)>, i: int)
    requires
        strictly_increasing(keys_of(e)),
        0 <= i < e.len(),
    ensures
        entries_map(e).dom().contains(e[i].0@),
        entries_map(e)[e[i].0@] == e[i].1,
{
    let k = e[i].0@;
    assert(has_key_at(e, i, k));
    let j = choose|j: int| has_key_at(e, j, k);
    lemma_increasing_unique(e, j, i);
}

/// A map from string keys to values, held as a list in increasing key order.
pub struct SortedMap<V> {
    entries: Vec<(String, V)>,
}

impl<V> View for SortedMap<V> {
    type V = Map<Seq<char>, V>;

    closed spec fn view(&self) -> Map<Seq<char>, V> {
        entries_map(self.entries@)
    }
}

impl<V> SortedMap<V> {
    /// The document's invariant: its keys strictly increase.
    pub closed spec fn wf(self) -> bool {
        strictly_increasing(keys_of(self.entries@))
    }

    /// The keys in the order the document holds them.
    pub closed spec fn key_order(self) -> Seq<Seq<char>> {
        keys_of(self.entries@)
    }

    /// The key order lists the document's keys, each once, increasing.
    pub proof fn lemma_key_order(self)
        requires
            self.wf(),
        ensures
            strictly_increasing(self.key_order()),
            forall|k: Seq<char>| self@.dom().contains(k) <==> self.key_order().contains(k),
    {
        let e = self.entries@;
        assert forall|k: Seq<char>| self@.dom().contains(k) <==> self.key_order().contains(k) by {
            if self@.dom().contains(k) {
                let i = choose|i: int| has_key_at(e, i, k);
                assert(self.key_order()[i] == k);
            }
            if self.key_order().contains(k) {
                let i = choose|i: int| 0 <= i < self.key_order().len() && self.key_order()[i] == k;
                assert(has_key_at(e, i, k));
            }
        }
    }

    /// An empty document.
    pub fn new() -> (d: SortedMap<V>)
        ensures
            d.wf(),
            d@ == Map::<Seq<char>, V>::empty(),
            d.key_order().len() == 0,
    {
        let d = SortedMap { entries: Vec::new() };
        assert(d@ =~= Map::<Seq<char>, V>::empty());
        d
    }

    /// Where `key` is, or where it would go.
    fn position(&self, key: &str) -> (r: Result<usize, usize>)
        requires
            self.wf(),
        ensures
            match r {
                Ok(i) => has_key_at(self.entries@, i as int, key@),
                Err(p) => p <= self.entries@.len() && (forall|j: int|
                    0 <= j < p ==> lex_less(#[trigger] keys_of(self.entries@)[j], key@)) && (
                forall|j: int|
                    p <= j < self.entries@.len() ==> lex_less(
                        key@,
                        #[trigger] keys_of(self.entries@)[j],
                    )),
            },
    {
        let ghost k = keys_of(self.entries@);
        let mut i: usize = 0;
        while i < self.entries.len() && str_less(self.entries[i].0.as_str(), key)
            invariant
                i <= self.entries@.len(),
                k == keys_of(self.entries@),
                forall|j: int| 0 <= j < i ==> lex_less(#[trigger] k[j], key@),
            decreases self.entries@.len() - i,
        {
            i = i + 1;
        }
        if i < self.entries.len() && str_eq(self.entries[i].0.as_str(), key) {
            return Ok(i);
        }
        proof {
            if i < k.len() {
                lemma_lex_total(k[i as int], key@);
                assert(lex_less(key@, k[i as int]));
                assert forall|j: int| i <= j < k.len() implies lex_less(key@, #[trigger] k[j]) by {
                    if j > i {
                        assert(lex_less(k[i as int], k[j]));
                        lemma_lex_transitive(key@, k[i as int], k[j]);
                    }
                }
            }
        }
        Err(i)
    }

    /// Looks a key up.
    pub fn get(&self, key: &str) -> (r: Option<&V>)
        requires
            self.wf(),
        ensures
            match r {
                Some(c) => self@.dom().contains(key@) && self@[key@] == *c,
                None => !self@.dom().contains(key@),
            },
    {
        match self.position(key) {
            Ok(i) => {
                proof {
                    lemma_entries_map_at(self.entries@, i as int);
                }
                Some(&self.entries[i].1)
            },
            Err(p) => {
                proof {
                    let e = self.entries@;
                    if exists|j: int| has_key_at(e, j, key@) {
                        let j = choose|j: int| has_key_at(e, j, key@);
                        lemma_lex_irreflexive(key@);
                        assert(keys_of(e)[j] == key@);
                    }
                }
                None
            },
        }
    }

    /// Writes (or replaces) the value of a key.
    pub fn insert(&mut self, key: String, value: V)
        requires
            old(self).wf(),
        ensures
            final(self).wf(),
            final(self)@ == old(self)@.insert(key@, value),
    {
        let ghost old_e = self.entries@;
        let ghost kv = key@;
        match self.position(key.as_str()) {
            Ok(i) => {
                self.entries.set(i, (key, value));
                proof {
                    let e = self.entries@;
                    assert(keys_of(e) =~= keys_of(old_e));
                    assert forall|k: Seq<char>|
                        #![trigger entries_map(e).dom().contains(k)]
                        entries_map(e).dom().contains(k) == inserted_view(old_e, kv, value).dom().contains(k)
                        by {
                        if exists|j: int| has_key_at(old_e, j, k) {
                            let j = choose|j: int| has_key_at(old_e, j, k);
                            assert(has_key_at(e, j, k));
                        }
                        if exists|j: int| has_key_at(e, j, k) {
                            let j = choose|j: int| has_key_at(e, j, k);
                            assert(has_key_at(old_e, j, k));
                        }
                    }
                    assert forall|k: Seq<char>| #[trigger] entries_map(e).dom().contains(k) implies entries_map(e)[k]
                        == inserted_view(old_e, kv, value)[k] by {
                        let j = choose|j: int| has_key_at(e, j, k);
                        lemma_entries_map_at(e, j);
                        if j != i {
                            assert(old_e[j] == e[j]);
                            lemma_entries_map_at(old_e, j);
                            if k == kv {
                                assert(old_e[i as int].0@ == kv);
                                lemma_increasing_unique(old_e, j, i as int);
                            }
                        }
                    }
                    assert(entries_map(e) =~= inserted_view(old_e, kv, value));
                }
            },
            Err(p) => {
                self.entries.insert(p, (key, value));
                proof {
                    let e = self.entries@;
                    let ko = keys_of(old_e);
                    let kn = keys_of(e);
                    assert forall|j: int| 0 <= j < kn.len() implies #[trigger] kn[j] == (if j < p {
                        ko[j]
                    } else if j == p {
                        kv
                    } else {
                        ko[j - 1]
                    }) by {}
                    assert forall|a: int, b: int| 0 <= a < b < kn.len() implies lex_less(
                        #[trigger] kn[a],
                        #[trigger] kn[b],
                    ) by {
                        if a < p && b > p {
                            assert(lex_less(ko[a], kv));
                            assert(lex_less(kv, ko[b - 1]));
                            lemma_lex_transitive(ko[a], kv, ko[b - 1]);
                        } else if a < p && b == p {
                            assert(lex_less(ko[a], kv));
                        } else if a == p {
                            assert(lex_less(kv, ko[b - 1]));
                        } else if a < p {
                            assert(lex_less(ko[a], ko[b]));
                        } else {
                            assert(lex_less(ko[a - 1], ko[b - 1]));
                        }
                    }
                    assert forall|k: Seq<char>|
                        #![trigger entries_map(e).dom().contains(k)]
                        entries_map(e).dom().contains(k) == inserted_view(old_e, kv, value).dom().contains(k)
                        by {
                        if exists|j: int| has_key_at(old_e, j, k) {
                            let j = choose|j: int| has_key_at(old_e, j, k);
                            if j < p {
                                assert(has_key_at(e, j, k));
                            } else {
                                assert(has_key_at(e, j + 1, k));
                            }
                        }
                        if k == kv {
                            assert(has_key_at(e, p as int, k));
                        }
                        if exists|j: int| has_key_at(e, j, k) {
                            let j = choose|j: int| has_key_at(e, j, k);
                            if j < p {
                                assert(has_key_at(old_e, j, k));
                            } else if j > p {
                                assert(has_key_at(old_e, j - 1, k));
                            }
                        }
                    }
                    assert forall|k: Seq<char>| #[trigger] entries_map(e).dom().contains(k) implies entries_map(e)[k]
                        == inserted_view(old_e, kv, value)[k] by {
                        let j = choose|j: int| has_key_at(e, j, k);
                        assert(strictly_increasing(kn));
                        lemma_entries_map_at(e, j);
                        lemma_lex_irreflexive(kv);
                        if j < p {
                            assert(e[j] == old_e[j]);
                            lemma_entries_map_at(old_e, j);
                            assert(lex_less(ko[j], kv));
                        } else if j > p {
                            assert(e[j] == old_e[j - 1]);
                            lemma_entries_map_at(old_e, j - 1);
                            assert(lex_less(kv, ko[j - 1]));
                        }
                    }
                    assert(entries_map(e) =~= inserted_view(old_e, kv, value));
                }
            },
        }
    }

    /// Removes a key, returning its value if it was there.
    pub fn remove(&mut self, key: &str) -> (r: Option<V>)
        requires
            old(self).wf(),
        ensures
            final(self).wf(),
            final(self)@ == old(self)@.remove(key@),
            match r {
                Some(c) => old(self)@.dom().contains(key@) && old(self)@[key@] == c,
                None => !old(self)@.dom().contains(key@),
            },
    {
        let ghost old_e = self.entries@;
        match self.position(key) {
            Ok(i) => {
                proof {
                    lemma_entries_map_at(old_e, i as int);
                }
                let (_, value) = self.entries.remove(i);
                proof {
                    let e = self.entries@;
                    let ko = keys_of(old_e);
                    let kn = keys_of(e);
                    assert forall|j: int| 0 <= j < kn.len() implies #[trigger] kn[j] == (if j < i {
                        ko[j]
                    } else {
                        ko[j + 1]
                    }) by {}
                    assert forall|a: int, b: int| 0 <= a < b < kn.len() implies lex_less(
                        #[trigger] kn[a],
                        #[trigger] kn[b],
                    ) by {
                        if a < i && b >= i {
                            assert(lex_less(ko[a], ko[b + 1]));
                        } else if a < i {
                            assert(lex_less(ko[a], ko[b]));
                        } else {
                            assert(lex_less(ko[a + 1], ko[b + 1]));
                        }
                    }
                    let removed = entries_map(old_e).remove(key@);
                    assert forall|k: Seq<char>|
                        #![trigger entries_map(e).dom().contains(k)]
                        entries_map(e).dom().contains(k) == removed.dom().contains(k) by {
                        if exists|j: int| has_key_at(e, j, k) {
                            let j = choose|j: int| has_key_at(e, j, k);
                            if j < i {
                                assert(has_key_at(old_e, j, k));
                                if k == key@ {
                                    lemma_increasing_unique(old_e, j, i as int);
                                }
                            } else {
                                assert(has_key_at(old_e, j + 1, k));
                                if k == key@ {
                                    lemma_increasing_unique(old_e, j + 1, i as int);
                                }
                            }
                        }
                        if removed.dom().contains(k) {
                            let j = choose|j: int| has_key_at(old_e, j, k);
                            if j < i {
                                assert(has_key_at(e, j, k));
                            } else {
                                assert(j != i);
                                assert(has_key_at(e, j - 1, k));
                            }
                        }
                    }
                    assert forall|k: Seq<char>| #[trigger] entries_map(e).dom().contains(k) implies entries_map(e)[k]
                        == removed[k] by {
                        let j = choose|j: int| has_key_at(e, j, k);
                        lemma_entries_map_at(e, j);
                        if j < i {
                            lemma_entries_map_at(old_e, j);
                        } else {
                            lemma_entries_map_at(old_e, j + 1);
                        }
                    }
                    assert(entries_map(e) =~= removed);
                }
                Some(value)
            },
            Err(p) => {
                proof {
                    if exists|j: int| has_key_at(old_e, j, key@) {
                        let j = choose|j: int| has_key_at(old_e, j, key@);
                        lemma_lex_irreflexive(key@);
                        assert(keys_of(old_e)[j] == key@);
                    }
                    assert(entries_map(old_e).remove(key@) =~= entries_map(old_e));
                }
                None
            },
        }
    }

    /// The keys, in increasing order.
    pub fn keys(&self) -> (r: Vec<String>)
        ensures
            r@.len() == self.key_order().len(),
            forall|i: int| 0 <= i < r@.len() ==> #[trigger] r@[i]@ == self.key_order()[i],
    {
        let mut out: Vec<String> = Vec::new();
        let mut i: usize = 0;
        while i < self.entries.len()
            invariant
                i <= self.entries@.len(),
                out@.len() == i,
                forall|j: int| 0 <= j < i ==> #[trigger] out@[j]@ == keys_of(self.entries@)[j],
            decreases self.entries@.len() - i,
        {
            out.push(self.entries[i].0.clone());
            i = i + 1;
        }
        out
    }

}

/// The map of `e` with `k` set to `v`.
pub open spec fn inserted_view<V>(
    e: Seq<(String, V)>,
    k: Seq<char>,
    v: V,
) -> Map<Seq<char>, V> {
    entries_map(e).insert(k, v)
}

/// The map entries read in order build, later ones replacing earlier ones.
pub open spec fn folded_entries<V>(s: Seq<(String, V)>) -> Map<Seq<char>, V>
    decreases s.len(),
{
    if s.len() == 0 {
        Map::empty()
    } else {
        folded_entries(s.drop_last()).insert(s.last().0@, s.last().1)
    }
}


impl<V> SortedMap<V> {
    /// The entries, consumed, in increasing key order.
    pub fn into_entries(self) -> (r: Vec<(String, V)>)
        requires
            self.wf(),
        ensures
            keys_of(r@) == self.key_order(),
            strictly_increasing(keys_of(r@)),
            entries_map(r@) == self@,
    {
        self.entries
    }

    /// The number of keys.
    pub fn len(&self) -> (n: usize)
        ensures
            n == self.key_order().len(),
    {
        self.entries.len()
    }

    /// The entry at position `i` of the key order.
    pub fn entry_at(&self, i: usize) -> (r: (&String, &V))
        requires
            self.wf(),
            i < self.key_order().len(),
        ensures
            r.0@ == self.key_order()[i as int],
            self@.dom().contains(r.0@),
            self@[r.0@] == *r.1,
    {
        proof {
            lemma_entries_map_at(self.entries@, i as int);
        }
        (&self.entries[i].0, &self.entries[i].1)
    }
}

} // verus!
