//! An insertion-ordered map from string keys to values, in which no key
//! occurs twice. It stands for the hash maps keyed by identifiers that the
//! proxy and the certificate service keep (hosts, certificates, challenges,
//! subscription channels).
use vstd::prelude::*;

verus! {

/// The pairs of a sequence whose keys are all distinct.
pub open spec fn keys_distinct<V>(s: Seq<(Seq<char>, V)>) -> bool {
    forall|i: int, j: int| 0 <= i < j < s.len() ==> #[trigger] s[i].0 != #[trigger] s[j].0
}

/// The map that a sequence of pairs stands for.
pub open spec fn map_of<V>(s: Seq<(Seq<char>, V)>) -> Map<Seq<char>, V> {
    Map::new(
        |k: Seq<char>| exists|i: int| 0 <= i < s.len() && #[trigger] s[i].0 == k,
        |k: Seq<char>| s[choose|i: int| 0 <= i < s.len() && #[trigger] s[i].0 == k].1,
    )
}

/// Each pair of a sequence with distinct keys stands in its map.
pub proof fn lemma_map_of_index<V>(s: Seq<(Seq<char>, V)>, i: int)
    requires
        keys_distinct(s),
        0 <= i < s.len(),
    ensures
        map_of(s).contains_key(s[i].0),
        map_of(s)[s[i].0] == s[i].1,
{
    let k = s[i].0;
    assert(exists|j: int| 0 <= j < s.len() && #[trigger] s[j].0 == k);
    let j = choose|j: int| 0 <= j < s.len() && #[trigger] s[j].0 == k;
    if j < i {
        assert(s[j].0 != s[i].0);
    } else if i < j {
        assert(s[i].0 != s[j].0);
    }
}

/// A key that no pair holds is not in the map.
pub proof fn lemma_map_of_absent<V>(s: Seq<(Seq<char>, V)>, k: Seq<char>)
    requires
        forall|i: int| 0 <= i < s.len() ==> #[trigger] s[i].0 != k,
    ensures
        !map_of(s).contains_key(k),
{
}

/// Appending a pair with a new key inserts it into the map.
pub proof fn lemma_map_of_push<V>(s: Seq<(Seq<char>, V)>, k: Seq<char>, v: V)
    requires
        keys_distinct(s),
        !map_of(s).contains_key(k),
    ensures
        keys_distinct(s.push((k, v))),
        map_of(s.push((k, v))) == map_of(s).insert(k, v),
{
    let t = s.push((k, v));
    assert forall|i: int| 0 <= i < s.len() implies #[trigger] s[i].0 != k by {
        if s[i].0 == k {
            assert(map_of(s).contains_key(k));
        }
    }
    assert forall|i: int, j: int| 0 <= i < j < t.len() implies #[trigger] t[i].0 != #[trigger] t[j].0 by {
        if j < s.len() {
            assert(s[i].0 != s[j].0);
        }
    }
    assert forall|q: Seq<char>| #[trigger] map_of(t).contains_key(q) <==> map_of(s).insert(k, v).contains_key(q) by {
        if map_of(s).contains_key(q) {
            let i = choose|i: int| 0 <= i < s.len() && #[trigger] s[i].0 == q;
            assert(t[i].0 == q);
        }
        if q == k {
            assert(t[s.len() as int].0 == k);
        }
        if map_of(t).contains_key(q) && q != k {
            let i = choose|i: int| 0 <= i < t.len() && #[trigger] t[i].0 == q;
            assert(s[i].0 == q);
        }
    }
    assert forall|q: Seq<char>| #[trigger] map_of(t).contains_key(q) implies map_of(t)[q] == map_of(s).insert(k, v)[q] by {
        let i = choose|i: int| 0 <= i < t.len() && #[trigger] t[i].0 == q;
        lemma_map_of_index(t, i);
        if i < s.len() {
            lemma_map_of_index(s, i);
        }
    }
    assert(map_of(t) =~= map_of(s).insert(k, v));
}

/// Removing the pair at an index removes its key from the map.
pub proof fn lemma_map_of_remove<V>(s: Seq<(Seq<char>, V)>, i: int)
    requires
        keys_distinct(s),
        0 <= i < s.len(),
    ensures
        keys_distinct(s.remove(i)),
        map_of(s.remove(i)) == map_of(s).remove(s[i].0),
{
    let t = s.remove(i);
    let k = s[i].0;
    assert forall|a: int, b: int| 0 <= a < b < t.len() implies #[trigger] t[a].0 != #[trigger] t[b].0 by {
        let a2 = if a < i { a } else { a + 1 };
        let b2 = if b < i { b } else { b + 1 };
        assert(t[a] == s[a2]);
        assert(t[b] == s[b2]);
        assert(s[a2].0 != s[b2].0);
    }
    assert forall|q: Seq<char>| #[trigger] map_of(t).contains_key(q) <==> map_of(s).remove(k).contains_key(q) by {
        if map_of(t).contains_key(q) {
            let a = choose|a: int| 0 <= a < t.len() && #[trigger] t[a].0 == q;
            let a2 = if a < i { a } else { a + 1 };
            assert(t[a] == s[a2]);
            assert(s[a2].0 == q);
            if a2 < i {
                assert(s[a2].0 != s[i].0);
            } else {
                assert(s[i].0 != s[a2].0);
            }
        }
        if map_of(s).contains_key(q) && q != k {
            let a = choose|a: int| 0 <= a < s.len() && #[trigger] s[a].0 == q;
            assert(a != i);
            let a2 = if a < i { a } else { a - 1 };
            assert(t[a2] == s[a]);
        }
    }
    assert forall|q: Seq<char>| #[trigger] map_of(t).contains_key(q) implies map_of(t)[q] == map_of(s).remove(k)[q] by {
        let a = choose|a: int| 0 <= a < t.len() && #[trigger] t[a].0 == q;
        let a2 = if a < i { a } else { a + 1 };
        assert(t[a] == s[a2]);
        lemma_map_of_index(t, a);
        lemma_map_of_index(s, a2);
    }
    assert(map_of(t) =~= map_of(s).remove(k));
}

/// Replacing the value of the pair at an index updates the map at its key.
pub proof fn lemma_map_of_update<V>(s: Seq<(Seq<char>, V)>, i: int, v: V)
    requires
        keys_distinct(s),
        0 <= i < s.len(),
    ensures
        keys_distinct(s.update(i, (s[i].0, v))),
        map_of(s.update(i, (s[i].0, v))) == map_of(s).insert(s[i].0, v),
{
    let t = s.update(i, (s[i].0, v));
    let k = s[i].0;
    assert forall|a: int, b: int| 0 <= a < b < t.len() implies #[trigger] t[a].0 != #[trigger] t[b].0 by {
        assert(t[a].0 == s[a].0);
        assert(t[b].0 == s[b].0);
        assert(s[a].0 != s[b].0);
    }
    assert forall|q: Seq<char>| #[trigger] map_of(t).contains_key(q) <==> map_of(s).insert(k, v).contains_key(q) by {
        if map_of(t).contains_key(q) {
            let a = choose|a: int| 0 <= a < t.len() && #[trigger] t[a].0 == q;
            assert(s[a].0 == q);
        }
        if map_of(s).contains_key(q) {
            let a = choose|a: int| 0 <= a < s.len() && #[trigger] s[a].0 == q;
            assert(t[a].0 == q);
        }
        if q == k {
            assert(t[i].0 == k);
        }
    }
    assert forall|q: Seq<char>| #[trigger] map_of(t).contains_key(q) implies map_of(t)[q] == map_of(s).insert(k, v)[q] by {
        let a = choose|a: int| 0 <= a < t.len() && #[trigger] t[a].0 == q;
        lemma_map_of_index(t, a);
        lemma_map_of_index(s, a);
    }
    assert(map_of(t) =~= map_of(s).insert(k, v));
}

/// The part of a map whose keys are among `keep`.
pub open spec fn restricted_to<V>(m: Map<Seq<char>, V>, keep: Seq<Seq<char>>) -> Map<Seq<char>, V> {
    Map::new(|q: Seq<char>| m.contains_key(q) && keep.contains(q), |q: Seq<char>| m[q])
}

/// `removed` lists, each once, exactly the pairs of `m` whose keys are not
/// among `keep`.
pub open spec fn lists_dropped<V>(removed: Seq<(Seq<char>, V)>, m: Map<Seq<char>, V>, keep: Seq<Seq<char>>) -> bool {
    &&& keys_distinct(removed)
    &&& forall|i: int|
        0 <= i < removed.len() ==> m.contains_key(#[trigger] removed[i].0) && !keep.contains(
            removed[i].0,
        ) && removed[i].1 == m[removed[i].0]
    &&& forall|q: Seq<char>|
        #[trigger] m.contains_key(q) && !keep.contains(q) ==> exists|i: int|
            0 <= i < removed.len() && #[trigger] removed[i].0 == q
}

/// The views of the keys of a sequence of owned pairs.
pub open spec fn owned_pairs<V>(v: Seq<(String, V)>) -> Seq<(Seq<char>, V)> {
    v.map_values(|e: (String, V)| (e.0@, e.1))
}

/// An insertion-ordered map from string keys to values with no key twice.
pub struct KeyedMap<V> {
    entries: Vec<(String, V)>,
}

impl<V> KeyedMap<V> {
    /// The pairs of the map, in the order in which their keys first came in.
    pub closed spec fn pairs(&self) -> Seq<(Seq<char>, V)> {
        self.entries@.map_values(|e: (String, V)| (e.0@, e.1))
    }

    /// The map that the pairs stand for.
    pub open spec fn map(&self) -> Map<Seq<char>, V> {
        map_of(self.pairs())
    }

    /// The keys of the map, in order.
    pub open spec fn key_seq(&self) -> Seq<Seq<char>> {
        self.pairs().map_values(|p: (Seq<char>, V)| p.0)
    }

    #[verifier::type_invariant]
    closed spec fn inv(&self) -> bool {
        keys_distinct(self.pairs())
    }

    /// An empty map.
    pub fn new() -> (m: Self)
        ensures
            m.pairs() == Seq::<(Seq<char>, V)>::empty(),
            m.map() == Map::<Seq<char>, V>::empty(),
    {
        let m = KeyedMap { entries: Vec::new() };
        assert(m.pairs() =~= Seq::<(Seq<char>, V)>::empty());
        assert(m.map() =~= Map::<Seq<char>, V>::empty());
        m
    }

    /// The number of pairs.
    pub fn len(&self) -> (n: usize)
        ensures
            n == self.pairs().len(),
    {
        self.entries.len()
    }

    /// The key and value of the pair at index `i`.
    pub fn entry_at(&self, i: usize) -> (e: (&String, &V))
        requires
            i < self.pairs().len(),
        ensures
            e.0@ == self.pairs()[i as int].0,
            *e.1 == self.pairs()[i as int].1,
            self.map().contains_key(e.0@),
            self.map()[e.0@] == *e.1,
    {
        proof {
            use_type_invariant(self);
            lemma_map_of_index(self.pairs(), i as int);
        }
        let e = &self.entries[i];
        (&e.0, &e.1)
    }

    /// States how the pairs and the map agree: the keys are distinct, each
    /// pair stands in the map, and each key of the map has its pair.
    pub fn pairs_agree(&self)
        ensures
            keys_distinct(self.pairs()),
            forall|i: int|
                0 <= i < self.pairs().len() ==> self.map().contains_key(#[trigger] self.pairs()[i].0)
                    && self.map()[self.pairs()[i].0] == self.pairs()[i].1,
            forall|k: Seq<char>|
                #[trigger] self.map().contains_key(k) ==> exists|i: int|
                    0 <= i < self.pairs().len() && #[trigger] self.pairs()[i].0 == k,
    {
        proof {
            use_type_invariant(self);
            assert forall|i: int| 0 <= i < self.pairs().len() implies self.map().contains_key(
                #[trigger] self.pairs()[i].0,
            ) && self.map()[self.pairs()[i].0] == self.pairs()[i].1 by {
                lemma_map_of_index(self.pairs(), i);
            }
        }
    }

    /// The index of the pair with the given key, if there is one.
    pub fn find(&self, key: &str) -> (r: Option<usize>)
        ensures
            r is Some <==> self.map().contains_key(key@),
            r matches Some(i) ==> i < self.pairs().len() && self.pairs()[i as int].0 == key@,
            r is None ==> forall|j: int| 0 <= j < self.pairs().len() ==> #[trigger] self.pairs()[j].0 != key@,
    {
        proof {
            use_type_invariant(self);
        }
        let k = String::from_str(key);
        let n = self.entries.len();
        let mut i: usize = 0;
        while i < n
            invariant
                n == self.entries@.len(),
                n == self.pairs().len(),
                k@ == key@,
                keys_distinct(self.pairs()),
                i <= n,
                forall|j: int| 0 <= j < i ==> #[trigger] self.pairs()[j].0 != key@,
            decreases n - i,
        {
            if self.entries[i].0 == k {
                proof {
                    assert(self.pairs()[i as int].0 == key@);
                    lemma_map_of_index(self.pairs(), i as int);
                }
                return Some(i);
            }
            assert(self.pairs()[i as int].0 != key@);
            i = i + 1;
        }
        proof {
            lemma_map_of_absent(self.pairs(), key@);
        }
        None
    }

    /// Whether the map holds the key.
    pub fn contains_key(&self, key: &str) -> (b: bool)
        ensures
            b == self.map().contains_key(key@),
    {
        self.find(key).is_some()
    }

    /// The value under the key, if there is one.
    pub fn get(&self, key: &str) -> (r: Option<&V>)
        ensures
            r is Some <==> self.map().contains_key(key@),
            r matches Some(v) ==> *v == self.map()[key@],
    {
        proof {
            use_type_invariant(self);
        }
        match self.find(key) {
            Some(i) => {
                proof {
                    lemma_map_of_index(self.pairs(), i as int);
                }
                Some(&self.entries[i].1)
            },
            None => None,
        }
    }

    /// Puts the value under the key, in place of the value that was there.
    /// A new key goes after all the others.
    pub fn insert(&mut self, key: String, value: V) -> (old_value: Option<V>)
        ensures
            final(self).map() == old(self).map().insert(key@, value),
            old(self).map().contains_key(key@) ==> final(self).key_seq() == old(self).key_seq(),
            !old(self).map().contains_key(key@) ==> final(self).key_seq() == old(self).key_seq().push(key@),
            old_value is Some <==> old(self).map().contains_key(key@),
            old_value matches Some(v) ==> v == old(self).map()[key@],
    {
        proof {
            use_type_invariant(&*self);
        }
        let ghost s0 = self.pairs();
        match self.find(key.as_str()) {
            Some(i) => {
                proof {
                    lemma_map_of_index(s0, i as int);
                    lemma_map_of_update(s0, i as int, value);
                }
                let mut entries: Vec<(String, V)> = Vec::new();
                std::mem::swap(&mut entries, &mut self.entries);
                let old_entry = entries.remove(i);
                entries.insert(i, (key, value));
                assert(entries@.map_values(|e: (String, V)| (e.0@, e.1)) =~= s0.update(i as int, (s0[i as int].0, value)));
                self.entries = entries;
                proof {
                    assert(self.key_seq() =~= s0.map_values(|p: (Seq<char>, V)| p.0));
                }
                Some(old_entry.1)
            },
            None => {
                proof {
                    lemma_map_of_push(s0, key@, value);
                }
                let mut entries: Vec<(String, V)> = Vec::new();
                std::mem::swap(&mut entries, &mut self.entries);
                entries.push((key, value));
                assert(entries@.map_values(|e: (String, V)| (e.0@, e.1)) =~= s0.push((key@, value)));
                self.entries = entries;
                proof {
                    assert(self.key_seq() =~= s0.map_values(|p: (Seq<char>, V)| p.0).push(key@));
                }
                None
            },
        }
    }

    /// The keys of the map, in order.
    pub fn keys(&self) -> (ks: Vec<String>)
        ensures
            ks@.map_values(|k: String| k@) == self.key_seq(),
    {
        let n = self.entries.len();
        let mut ks: Vec<String> = Vec::new();
        let mut i: usize = 0;
        while i < n
            invariant
                n == self.pairs().len(),
                i <= n,
                ks@.map_values(|k: String| k@) == self.key_seq().subrange(0, i as int),
            decreases n - i,
        {
            let k = self.entries[i].0.clone();
            let ghost prev = ks@.map_values(|k: String| k@);
            ks.push(k);
            proof {
                assert(self.pairs()[i as int].0 == self.entries@[i as int].0@);
                assert(self.key_seq()[i as int] == self.pairs()[i as int].0);
                assert(ks@.map_values(|k: String| k@) =~= prev.push(k@));
                assert(ks@.map_values(|k: String| k@) =~= self.key_seq().subrange(0, i + 1));
            }
            i = i + 1;
        }
        proof {
            assert(self.key_seq().subrange(0, n as int) =~= self.key_seq());
        }
        ks
    }

    /// Keeps only the pairs whose keys are among `keep` and hands back the
    /// others.
    pub fn retain_keys(&mut self, keep: &Vec<String>) -> (removed: Vec<(String, V)>)
        ensures
            final(self).map() == restricted_to(old(self).map(), keep@.map_values(|k: String| k@)),
            lists_dropped(owned_pairs(removed@), old(self).map(), keep@.map_values(|k: String| k@)),
    {
        let ghost kv = keep@.map_values(|k: String| k@);
        let ghost m0 = self.map();
        self.pairs_agree();
        let ks = self.keys();
        let ghost kseq = self.key_seq();
        assert(forall|i: int, j: int| 0 <= i < j < kseq.len() ==> kseq[i] != kseq[j]) by {
            assert forall|i: int, j: int| 0 <= i < j < kseq.len() implies kseq[i] != kseq[j] by {
                assert(kseq[i] == self.pairs()[i].0);
                assert(kseq[j] == self.pairs()[j].0);
            }
        }
        assert(forall|q: Seq<char>| m0.contains_key(q) <==> kseq.contains(q)) by {
            assert forall|q: Seq<char>| m0.contains_key(q) implies kseq.contains(q) by {
                let i = choose|i: int| 0 <= i < self.pairs().len() && #[trigger] self.pairs()[i].0 == q;
                assert(kseq[i] == q);
            }
            assert forall|q: Seq<char>| kseq.contains(q) implies m0.contains_key(q) by {
                let i = choose|i: int| 0 <= i < kseq.len() && #[trigger] kseq[i] == q;
                assert(kseq[i] == self.pairs()[i].0);
            }
        }
        let mut removed: Vec<(String, V)> = Vec::new();
        let mut i: usize = 0;
        while i < ks.len()
            invariant
                kv == keep@.map_values(|k: String| k@),
                kseq == ks@.map_values(|k: String| k@),
                forall|a: int, b: int| 0 <= a < b < kseq.len() ==> kseq[a] != kseq[b],
                forall|q: Seq<char>| m0.contains_key(q) <==> kseq.contains(q),
                i <= ks@.len(),
                forall|q: Seq<char>|
                    #[trigger] self.map().contains_key(q) <==> (m0.contains_key(q) && (kv.contains(q)
                        || !kseq.subrange(0, i as int).contains(q))),
                forall|q: Seq<char>| #[trigger] self.map().contains_key(q) ==> self.map()[q] == m0[q],
                keys_distinct(owned_pairs(removed@)),
                forall|a: int|
                    0 <= a < removed@.len() ==> kseq.subrange(0, i as int).contains(
                        #[trigger] owned_pairs(removed@)[a].0,
                    ) && m0.contains_key(owned_pairs(removed@)[a].0) && !kv.contains(
                        owned_pairs(removed@)[a].0,
                    ) && owned_pairs(removed@)[a].1 == m0[owned_pairs(removed@)[a].0],
                forall|q: Seq<char>|
                    m0.contains_key(q) && !kv.contains(q) && kseq.subrange(0, i as int).contains(q)
                        ==> exists|a: int|
                        0 <= a < removed@.len() && #[trigger] owned_pairs(removed@)[a].0 == q,
            decreases ks@.len() - i,
        {
            let k = &ks[i];
            let mut found = false;
            let mut j: usize = 0;
            while j < keep.len()
                invariant
                    kv == keep@.map_values(|k: String| k@),
                    j <= keep@.len(),
                    found == kv.subrange(0, j as int).contains(k@),
                decreases keep@.len() - j,
            {
                if keep[j] == *k {
                    found = true;
                }
                proof {
                    assert(kv.subrange(0, j + 1) =~= kv.subrange(0, j as int).push(keep@[j as int]@));
                    if kv.subrange(0, j + 1).contains(k@) && !kv.subrange(0, j as int).contains(k@) {
                        let x = choose|x: int| 0 <= x < j + 1 && #[trigger] kv.subrange(0, j + 1)[x] == k@;
                        if x < j {
                            assert(kv.subrange(0, j as int)[x] == k@);
                        }
                    }
                    if kv.subrange(0, j as int).contains(k@) {
                        let x = choose|x: int| 0 <= x < j && #[trigger] kv.subrange(0, j as int)[x] == k@;
                        assert(kv.subrange(0, j + 1)[x] == k@);
                    }
                    if keep@[j as int]@ == k@ {
                        assert(kv.subrange(0, j + 1)[j as int] == k@);
                    }
                }
                j = j + 1;
            }
            proof {
                assert(kv.subrange(0, keep@.len() as int) =~= kv);
                assert(kseq[i as int] == k@);
                assert forall|q: Seq<char>| kseq.subrange(0, i + 1).contains(q) <==> (kseq.subrange(0, i as int).contains(q) || q == k@) by {
                    if kseq.subrange(0, i + 1).contains(q) {
                        let x = choose|x: int| 0 <= x < i + 1 && #[trigger] kseq.subrange(0, i + 1)[x] == q;
                        if x < i {
                            assert(kseq.subrange(0, i as int)[x] == q);
                        }
                    }
                    if kseq.subrange(0, i as int).contains(q) {
                        let x = choose|x: int| 0 <= x < i && #[trigger] kseq.subrange(0, i as int)[x] == q;
                        assert(kseq.subrange(0, i + 1)[x] == q);
                    }
                    if q == k@ {
                        assert(kseq.subrange(0, i + 1)[i as int] == q);
                    }
                }
                assert(!kseq.subrange(0, i as int).contains(k@)) by {
                    if kseq.subrange(0, i as int).contains(k@) {
                        let x = choose|x: int| 0 <= x < i && #[trigger] kseq.subrange(0, i as int)[x] == k@;
                        assert(kseq[x] == kseq[i as int]);
                    }
                }
                assert(kseq.contains(k@));
            }
            if !found {
                let ghost before = self.map();
                let v = self.remove(k.as_str());
                match v {
                    Some(v) => {
                        let ghost rv = owned_pairs(removed@);
                        removed.push((k.clone(), v));
                        proof {
                            assert(owned_pairs(removed@) =~= rv.push((k@, v)));
                            assert forall|a: int, b: int| 0 <= a < b < owned_pairs(removed@).len() implies
                                #[trigger] owned_pairs(removed@)[a].0 != #[trigger] owned_pairs(removed@)[b].0 by {
                                if b == rv.len() {
                                    assert(kseq.subrange(0, i as int).contains(rv[a].0));
                                } else {
                                    assert(rv[a].0 != rv[b].0);
                                }
                            }
                            assert forall|q: Seq<char>|
                                m0.contains_key(q) && !kv.contains(q) && kseq.subrange(0, i + 1).contains(q)
                                implies exists|a: int|
                                0 <= a < removed@.len() && #[trigger] owned_pairs(removed@)[a].0 == q by {
                                if q == k@ {
                                    assert(owned_pairs(removed@)[rv.len() as int].0 == q);
                                } else {
                                    let a = choose|a: int| 0 <= a < rv.len() && #[trigger] rv[a].0 == q;
                                    assert(owned_pairs(removed@)[a].0 == q);
                                }
                            }
                            assert forall|a: int| 0 <= a < removed@.len() implies kseq.subrange(0, i + 1).contains(
                                #[trigger] owned_pairs(removed@)[a].0,
                            ) && m0.contains_key(owned_pairs(removed@)[a].0) && !kv.contains(
                                owned_pairs(removed@)[a].0,
                            ) && owned_pairs(removed@)[a].1 == m0[owned_pairs(removed@)[a].0] by {
                                if a < rv.len() {
                                    assert(owned_pairs(removed@)[a] == rv[a]);
                                }
                            }
                        }
                    },
                    None => {
                        assert(false);
                    },
                }
            } else {
                proof {
                    assert forall|a: int| 0 <= a < removed@.len() implies kseq.subrange(0, i + 1).contains(
                        #[trigger] owned_pairs(removed@)[a].0,
                    ) by {}
                }
            }
            i = i + 1;
        }
        proof {
            assert(kseq.subrange(0, ks@.len() as int) =~= kseq);
            assert(self.map() =~= restricted_to(m0, kv));
        }
        removed
    }

    /// A map with the same keys in the same order, each value made by `copy`
    /// from the value under the same key.
    pub fn copy_with<F: Fn(&V) -> V>(&self, copy: F) -> (r: KeyedMap<V>)
        requires
            forall|v: &V| #[trigger] copy.requires((v,)),
        ensures
            r.key_seq() == self.key_seq(),
            r.pairs().len() == self.pairs().len(),
            forall|i: int|
                0 <= i < self.pairs().len() ==> r.pairs()[i].0 == self.pairs()[i].0
                    && copy.ensures((&self.pairs()[i].1,), #[trigger] r.pairs()[i].1),
            r.map().dom() == self.map().dom(),
            forall|k: Seq<char>|
                #[trigger] self.map().contains_key(k) ==> copy.ensures((&self.map()[k],), r.map()[k]),
    {
        proof {
            use_type_invariant(self);
        }
        let ghost s0 = self.pairs();
        let n = self.entries.len();
        let mut entries: Vec<(String, V)> = Vec::new();
        let mut i: usize = 0;
        while i < n
            invariant
                n == self.entries@.len(),
                s0 == self.pairs(),
                i <= n,
                entries@.len() == i,
                forall|v: &V| #[trigger] copy.requires((v,)),
                forall|j: int|
                    0 <= j < i ==> (#[trigger] entries@[j]).0@ == s0[j].0
                        && copy.ensures((&s0[j].1,), entries@[j].1),
            decreases n - i,
        {
            let e = &self.entries[i];
            let v = copy(&e.1);
            entries.push((e.0.clone(), v));
            proof {
                assert(entries@[i as int].0@ == s0[i as int].0);
            }
            i = i + 1;
        }
        let ghost t = entries@.map_values(|e: (String, V)| (e.0@, e.1));
        proof {
            assert forall|a: int, b: int| 0 <= a < b < t.len() implies #[trigger] t[a].0 != #[trigger] t[b].0 by {
                assert(t[a].0 == entries@[a].0@);
                assert(t[b].0 == entries@[b].0@);
                assert(s0[a].0 != s0[b].0);
            }
        }
        let r = KeyedMap { entries };
        proof {
            assert(r.pairs() == t);
            assert forall|j: int| 0 <= j < n implies r.pairs()[j].0 == s0[j].0 && copy.ensures(
                (&s0[j].1,),
                #[trigger] r.pairs()[j].1,
            ) by {
                assert(r.pairs()[j] == (entries@[j].0@, entries@[j].1));
            }
            assert(r.key_seq() =~= self.key_seq());
            assert forall|k: Seq<char>| #[trigger] r.map().contains_key(k) <==> self.map().contains_key(k) by {
                if self.map().contains_key(k) {
                    let j = choose|j: int| 0 <= j < s0.len() && #[trigger] s0[j].0 == k;
                    assert(r.pairs()[j].0 == k);
                }
                if r.map().contains_key(k) {
                    let j = choose|j: int| 0 <= j < t.len() && #[trigger] t[j].0 == k;
                    assert(s0[j].0 == r.pairs()[j].0);
                }
            }
            assert(r.map().dom() =~= self.map().dom());
            assert forall|k: Seq<char>| #[trigger] self.map().contains_key(k) implies copy.ensures(
                (&self.map()[k],),
                r.map()[k],
            ) by {
                let j = choose|j: int| 0 <= j < s0.len() && #[trigger] s0[j].0 == k;
                lemma_map_of_index(s0, j);
                assert(r.pairs()[j].0 == k);
                lemma_map_of_index(t, j);
            }
        }
        r
    }

    /// Takes the pair with the key out of the map; the others keep their order.
    pub fn remove(&mut self, key: &str) -> (removed: Option<V>)
        ensures
            final(self).map() == old(self).map().remove(key@),
            removed is Some <==> old(self).map().contains_key(key@),
            removed matches Some(v) ==> v == old(self).map()[key@],
    {
        proof {
            use_type_invariant(&*self);
        }
        let ghost s0 = self.pairs();
        match self.find(key) {
            Some(i) => {
                proof {
                    lemma_map_of_index(s0, i as int);
                    lemma_map_of_remove(s0, i as int);
                }
                let mut entries: Vec<(String, V)> = Vec::new();
                std::mem::swap(&mut entries, &mut self.entries);
                let e = entries.remove(i);
                assert(entries@.map_values(|e: (String, V)| (e.0@, e.1)) =~= s0.remove(i as int));
                self.entries = entries;
                Some(e.1)
            },
            None => {
                proof {
                    assert(old(self).map().remove(key@) =~= old(self).map());
                }
                None
            },
        }
    }
}

} // verus!
