//! A small string-keyed map that remembers the order keys were first added.
use vstd::prelude::*;
use crate::text::str_eq;

verus! {

/// The keys of a list of pairs.
pub open spec fn pair_keys<V>(s: Seq<(String, V)>) -> Seq<Seq<char>> {
    s.map_values(|p: (String, V)| p.0@)
}

/// Index of the first pair with key `k`, or -1.
pub open spec fn key_index(keys: Seq<Seq<char>>, k: Seq<char>) -> int
    decreases keys.len(),
{
    if keys.len() == 0 {
        -1
    } else if keys[0] == k {
        0
    } else {
        let r = key_index(keys.drop_first(), k);
        if r < 0 {
            -1
        } else {
            r + 1
        }
    }
}

pub proof fn lemma_key_index_at(keys: Seq<Seq<char>>, k: Seq<char>, i: int)
    requires
        0 <= i <= keys.len(),
        i < keys.len() ==> keys[i] == k,
        forall|j: int| 0 <= j < i ==> keys[j] != k,
    ensures
        key_index(keys, k) == (if i < keys.len() {
            i
        } else {
            -1
        }),
    decreases keys.len(),
{
    if keys.len() > 0 && i > 0 {
        lemma_key_index_at(keys.drop_first(), k, i - 1);
    }
}

/// Keys listed at most once.
pub open spec fn unique_keys(keys: Seq<Seq<char>>) -> bool {
    forall|i: int, j: int| 0 <= i < j < keys.len() ==> keys[i] != keys[j]
}

pub proof fn lemma_key_index_unique(keys: Seq<Seq<char>>, i: int)
    requires
        unique_keys(keys),
        0 <= i < keys.len(),
    ensures
        key_index(keys, keys[i]) == i,
{
    lemma_key_index_at(keys, keys[i], i);
}

pub proof fn lemma_key_index_absent(keys: Seq<Seq<char>>, k: Seq<char>)
    requires
        !keys.contains(k),
    ensures
        key_index(keys, k) == -1,
{
    lemma_key_index_at(keys, k, keys.len() as int);
}

pub proof fn lemma_key_index_range(keys: Seq<Seq<char>>, k: Seq<char>)
    ensures
        -1 <= key_index(keys, k) < keys.len(),
        key_index(keys, k) >= 0 ==> keys[key_index(keys, k)] == k,
        key_index(keys, k) < 0 ==> !keys.contains(k),
    decreases keys.len(),
{
    if keys.len() > 0 {
        lemma_key_index_range(keys.drop_first(), k);
        if keys[0] != k && key_index(keys.drop_first(), k) < 0 {
            assert forall|j: int| 0 <= j < keys.len() implies keys[j] != k by {
                if j > 0 {
                    assert(keys.drop_first()[j - 1] == keys[j]);
                }
            }
        }
    }
}

/// The map given by a list of pairs: each key to the value of its first pair.
pub open spec fn pairs_map<V>(s: Seq<(String, V)>) -> Map<Seq<char>, V> {
    Map::new(
        |k: Seq<char>| key_index(pair_keys(s), k) >= 0,
        |k: Seq<char>| s[key_index(pair_keys(s), k)].1,
    )
}

/// A map from strings to values that keeps keys in the order they were
/// first added.
pub struct GrassStringMap<V> {
    entries: Vec<(String, V)>,
}

impl<V> View for GrassStringMap<V> {
    type V = Map<Seq<char>, V>;

    closed spec fn view(&self) -> Map<Seq<char>, V> {
        pairs_map(self.entries@)
    }
}

impl<V> GrassStringMap<V> {
    /// The keys, in the order they were first added.
    pub closed spec fn key_order(&self) -> Seq<Seq<char>> {
        pair_keys(self.entries@)
    }

    /// Every key is listed once, and the listed keys are the map's keys.
    pub closed spec fn wf(&self) -> bool {
        unique_keys(self.key_order())
    }

    pub proof fn lemma_keys(&self)
        requires
            self.wf(),
        ensures
            forall|k: Seq<char>| self@.contains_key(k) <==> self.key_order().contains(k),
            self@.dom().finite(),
            self@.dom().len() == self.key_order().len(),
    {
        let keys = self.key_order();
        assert forall|k: Seq<char>| self@.contains_key(k) <==> keys.contains(k) by {
            lemma_key_index_range(keys, k);
            if keys.contains(k) {
                let i = choose|i: int| 0 <= i < keys.len() && keys[i] == k;
                lemma_key_index_unique(keys, i);
            }
        }
        assert(self@.dom() =~= keys.to_set());
        assert(keys.no_duplicates());
        keys.unique_seq_to_set();
    }

    /// An empty map.
    pub fn new() -> (r: Self)
        ensures
            r.wf(),
            r@ == Map::<Seq<char>, V>::empty(),
            r.key_order() == Seq::<Seq<char>>::empty(),
    {
        let r = GrassStringMap { entries: Vec::new() };
        assert(r.key_order() =~= Seq::<Seq<char>>::empty());
        assert(r@ =~= Map::<Seq<char>, V>::empty());
        r
    }

    fn find(&self, key: &str) -> (r: Option<usize>)
        ensures
            match r {
                Some(i) => i < self.entries@.len() && key_index(self.key_order(), key@) == i,
                None => key_index(self.key_order(), key@) == -1,
            },
    {
        let mut i: usize = 0;
        while i < self.entries.len()
            invariant
                i <= self.entries.len(),
                self.key_order().len() == self.entries.len(),
                forall|j: int| 0 <= j < i ==> self.key_order()[j] != key@,
            decreases self.entries.len() - i,
        {
            if str_eq(self.entries[i].0.as_str(), key) {
                proof {
                    lemma_key_index_at(self.key_order(), key@, i as int);
                }
                return Some(i);
            }
            i = i + 1;
        }
        proof {
            lemma_key_index_at(self.key_order(), key@, i as int);
        }
        None
    }

    /// The value stored under `key`, if any.
    pub fn get(&self, key: &str) -> (r: Option<&V>)
        ensures
            match r {
                Some(v) => self@.contains_key(key@) && self@[key@] == *v,
                None => !self@.contains_key(key@),
            },
    {
        match self.find(key) {
            Some(i) => Some(&self.entries[i].1),
            None => None,
        }
    }

    /// Whether `key` is stored.
    pub fn contains_key(&self, key: &str) -> (r: bool)
        ensures
            r == self@.contains_key(key@),
    {
        self.find(key).is_some()
    }

    /// Stores `value` under `key`, replacing any value stored before; a new
    /// key goes after the existing ones.
    pub fn insert(&mut self, key: String, value: V)
        requires
            old(self).wf(),
        ensures
            final(self).wf(),
            final(self)@ == old(self)@.insert(key@, value),
            old(self)@.contains_key(key@) ==> final(self).key_order() == old(self).key_order(),
            !old(self)@.contains_key(key@) ==> final(self).key_order() == old(self).key_order().push(
                key@,
            ),
    {
        let ghost old_keys = self.key_order();
        let ghost old_map = self@;
        let ghost k = key@;
        match self.find(key.as_str()) {
            Some(i) => {
                proof {
                    lemma_key_index_range(old_keys, k);
                }
                self.entries.set(i, (key, value));
                proof {
                    let keys = self.key_order();
                    assert(keys =~= old_keys);
                    assert forall|kk: Seq<char>| #[trigger] self@.contains_key(kk) == old_map.insert(
                        k,
                        value,
                    ).contains_key(kk) && (self@.contains_key(kk) ==> self@[kk] == old_map.insert(
                        k,
                        value,
                    )[kk]) by {
                        lemma_key_index_range(keys, kk);
                    }
                    assert(self@ =~= old_map.insert(k, value));
                }
            },
            None => {
                self.entries.push((key, value));
                proof {
                    let keys = self.key_order();
                    assert(keys =~= old_keys.push(k));
                    lemma_key_index_range(old_keys, k);
                    assert forall|a: int, b: int| 0 <= a < b < keys.len() implies keys[a]
                        != keys[b] by {
                        if b == keys.len() - 1 {
                            assert(old_keys.contains(keys[a]) ==> true);
                            if keys[a] == k {
                                assert(old_keys[a] == k);
                            }
                        }
                    }
                    assert forall|kk: Seq<char>| #[trigger] self@.contains_key(kk) == old_map.insert(
                        k,
                        value,
                    ).contains_key(kk) && (self@.contains_key(kk) ==> self@[kk] == old_map.insert(
                        k,
                        value,
                    )[kk]) by {
                        lemma_key_index_range(old_keys, kk);
                        if kk == k {
                            lemma_key_index_at(keys, kk, old_keys.len() as int);
                        } else {
                            let oi = key_index(old_keys, kk);
                            lemma_key_index_at(keys, kk, if oi >= 0 { oi } else { keys.len() as int });
                        }
                    }
                    assert(self@ =~= old_map.insert(k, value));
                }
            },
        }
    }

    /// Removes `key` and gives back its value, if it was stored; the other
    /// keys keep their order.
    pub fn remove(&mut self, key: &str) -> (r: Option<V>)
        requires
            old(self).wf(),
        ensures
            final(self).wf(),
            final(self)@ == old(self)@.remove(key@),
            match r {
                Some(v) => old(self)@.contains_key(key@) && old(self)@[key@] == v,
                None => !old(self)@.contains_key(key@),
            },
            final(self).key_order() == without(old(self).key_order(), key@),
    {
        let ghost old_keys = self.key_order();
        let ghost old_map = self@;
        let ghost k = key@;
        match self.find(key) {
            Some(i) => {
                let (_, v) = self.entries.remove(i);
                proof {
                    let keys = self.key_order();
                    assert(keys =~= old_keys.remove(i as int));
                    lemma_key_index_range(old_keys, k);
                    assert forall|a: int, b: int| 0 <= a < b < keys.len() implies keys[a]
                        != keys[b] by {
                        let oa = if a < i { a } else { a + 1 };
                        let ob = if b < i { b } else { b + 1 };
                        assert(keys[a] == old_keys[oa]);
                        assert(keys[b] == old_keys[ob]);
                    }
                    assert forall|kk: Seq<char>| #[trigger] self@.contains_key(kk) == old_map.remove(
                        k,
                    ).contains_key(kk) && (self@.contains_key(kk) ==> self@[kk] == old_map.remove(
                        k,
                    )[kk]) by {
                        lemma_key_index_range(old_keys, kk);
                        lemma_key_index_range(keys, kk);
                        let oi = key_index(old_keys, kk);
                        if kk == k {
                            assert forall|j: int| 0 <= j < keys.len() implies keys[j] != kk by {
                                let oj = if j < i { j } else { j + 1 };
                                assert(keys[j] == old_keys[oj]);
                            }
                            lemma_key_index_at(keys, kk, keys.len() as int);
                        } else if oi >= 0 {
                            let ni = if oi < i { oi } else { oi - 1 };
                            assert(keys[ni] == old_keys[oi]);
                            assert forall|j: int| 0 <= j < ni implies keys[j] != kk by {
                                let oj = if j < i { j } else { j + 1 };
                                assert(keys[j] == old_keys[oj]);
                            }
                            lemma_key_index_at(keys, kk, ni);
                        } else {
                            assert forall|j: int| 0 <= j < keys.len() implies keys[j] != kk by {
                                let oj = if j < i { j } else { j + 1 };
                                assert(keys[j] == old_keys[oj]);
                            }
                            lemma_key_index_at(keys, kk, keys.len() as int);
                        }
                    }
                    assert(self@ =~= old_map.remove(k));
                    lemma_filter_remove_unique(old_keys, i as int);
                }
                Some(v)
            },
            None => {
                proof {
                    lemma_key_index_range(old_keys, k);
                    assert(old_map.remove(k) =~= old_map);
                    lemma_filter_absent(old_keys, k);
                }
                None
            },
        }
    }

    /// The number of stored keys.
    pub fn len(&self) -> (r: usize)
        requires
            self.wf(),
        ensures
            r == self@.dom().len(),
            r == self.key_order().len(),
    {
        proof {
            self.lemma_keys();
        }
        self.entries.len()
    }

    /// The stored keys, in the order they were first added.
    pub fn keys(&self) -> (r: Vec<&str>)
        ensures
            r@.map_values(|s: &str| s@) == self.key_order(),
    {
        let mut r: Vec<&str> = Vec::new();
        let mut i: usize = 0;
        while i < self.entries.len()
            invariant
                i <= self.entries.len(),
                self.key_order().len() == self.entries.len(),
                r@.map_values(|s: &str| s@) == self.key_order().take(i as int),
            decreases self.entries.len() - i,
        {
            let ghost before = r@;
            let k = self.entries[i].0.as_str();
            r.push(k);
            assert(r@.map_values(|s: &str| s@) =~= before.map_values(|s: &str| s@).push(k@));
            i = i + 1;
            assert(r@.map_values(|s: &str| s@) =~= self.key_order().take(i as int));
        }
        assert(self.key_order().take(self.entries.len() as int) =~= self.key_order());
        r
    }

    /// Mutable access to the value stored under `key`, if any; the keys and
    /// their order stay as they are.
    pub fn get_mut(&mut self, key: &str) -> (r: Option<&mut V>)
        requires
            old(self).wf(),
        ensures
            match r {
                Some(v) => old(self)@.contains_key(key@) && *v == old(self)@[key@] && final(self)@
                    == old(self)@.insert(key@, *final(v)) && final(self).key_order() == old(
                    self,
                ).key_order() && final(self).wf(),
                None => !old(self)@.contains_key(key@) && *final(self) == *old(self),
            },
    {
        match self.find(key) {
            Some(i) => {
                proof {
                    lemma_key_index_range(self.key_order(), key@);
                }
                proof {
                    assert forall|x: V| #[trigger] pairs_map(
                        self.entries@.update(i as int, (self.entries@[i as int].0, x)),
                    ) == self@.insert(key@, x) && pair_keys(
                        self.entries@.update(i as int, (self.entries@[i as int].0, x)),
                    ) == self.key_order() by {
                        lemma_update_value(self.entries@, i as int, x);
                    }
                }
                let e = &mut self.entries[i];
                Some(&mut e.1)
            },
            None => None,
        }
    }

    /// The stored values, in the order their keys were first added.
    pub fn values(&self) -> (r: Vec<&V>)
        requires
            self.wf(),
        ensures
            r@.len() == self.key_order().len(),
            forall|i: int| 0 <= i < r@.len() ==> *r@[i] == self@[self.key_order()[i]],
    {
        let mut r: Vec<&V> = Vec::new();
        let mut i: usize = 0;
        while i < self.entries.len()
            invariant
                self.wf(),
                i <= self.entries.len(),
                self.key_order().len() == self.entries.len(),
                r@.len() == i,
                forall|j: int| 0 <= j < i ==> *r@[j] == self@[self.key_order()[j]],
            decreases self.entries.len() - i,
        {
            proof {
                lemma_key_index_unique(self.key_order(), i as int);
            }
            r.push(&self.entries[i].1);
            i = i + 1;
        }
        r
    }

    /// The value of the first key, in the order keys were first added.
    pub fn first_value(&self) -> (r: Option<&V>)
        requires
            self.wf(),
        ensures
            self.key_order().len() == 0 ==> r is None,
            self.key_order().len() > 0 ==> r == Some(&self@[self.key_order()[0]]),
    {
        if self.entries.len() == 0 {
            None
        } else {
            proof {
                lemma_key_index_unique(self.key_order(), 0);
            }
            Some(&self.entries[0].1)
        }
    }
}

/// `s` without the occurrences of `k`.
pub open spec fn without(s: Seq<Seq<char>>, k: Seq<char>) -> Seq<Seq<char>> {
    s.filter(|x: Seq<char>| x != k)
}

proof fn lemma_filter_absent(s: Seq<Seq<char>>, k: Seq<char>)
    requires
        !s.contains(k),
    ensures
        without(s, k) == s,
    decreases s.len(),
{
    reveal(Seq::filter);
    if s.len() > 0 {
        assert(!s.drop_last().contains(k)) by {
            if s.drop_last().contains(k) {
                let j = choose|j: int| 0 <= j < s.drop_last().len() && s.drop_last()[j] == k;
                assert(s[j] == k);
            }
        }
        lemma_filter_absent(s.drop_last(), k);
        assert(without(s, k) == without(s.drop_last(), k).push(s.last()));
        assert(s.drop_last().push(s.last()) =~= s);
    }
}

proof fn lemma_filter_remove_unique(s: Seq<Seq<char>>, i: int)
    requires
        unique_keys(s),
        0 <= i < s.len(),
    ensures
        without(s, s[i]) == s.remove(i),
    decreases s.len(),
{
    reveal(Seq::filter);
    let k = s[i];
    if i == s.len() - 1 {
        assert(!s.drop_last().contains(k)) by {
            if s.drop_last().contains(k) {
                let j = choose|j: int| 0 <= j < s.drop_last().len() && s.drop_last()[j] == k;
                assert(s[j] == k);
            }
        }
        lemma_filter_absent(s.drop_last(), k);
        assert(without(s, k) == without(s.drop_last(), k));
        assert(s.remove(i) =~= s.drop_last());
    } else {
        let d = s.drop_last();
        assert(unique_keys(d));
        assert(d[i] == k);
        lemma_filter_remove_unique(d, i);
        assert(s.last() != k);
        assert(without(s, k) == without(d, k).push(s.last()));
        assert(s.remove(i) =~= d.remove(i).push(s.last()));
    }
}

proof fn lemma_update_value<V>(s: Seq<(String, V)>, i: int, x: V)
    requires
        0 <= i < s.len(),
        unique_keys(pair_keys(s)),
    ensures
        pair_keys(s.update(i, (s[i].0, x))) == pair_keys(s),
        pairs_map(s.update(i, (s[i].0, x))) == pairs_map(s).insert(s[i].0@, x),
{
    let t = s.update(i, (s[i].0, x));
    let keys = pair_keys(s);
    assert(pair_keys(t) =~= keys);
    assert forall|k: Seq<char>| #[trigger] pairs_map(t).contains_key(k) == pairs_map(s).insert(
        s[i].0@,
        x,
    ).contains_key(k) && (pairs_map(t).contains_key(k) ==> pairs_map(t)[k] == pairs_map(s).insert(
        s[i].0@,
        x,
    )[k]) by {
        lemma_key_index_range(keys, k);
        if k == s[i].0@ {
            lemma_key_index_unique(keys, i);
        }
    }
    assert(pairs_map(t) =~= pairs_map(s).insert(s[i].0@, x));
}

/// Distinct positions of a map's key order hold distinct keys.
pub proof fn lemma_keys_distinct<V>(m: &GrassStringMap<V>, i: int, j: int)
    requires
        m.wf(),
        0 <= i < m.key_order().len(),
        0 <= j < m.key_order().len(),
        i != j,
    ensures
        m.key_order()[i] != m.key_order()[j],
{
    if i < j {
    } else {
    }
}

} // verus!
