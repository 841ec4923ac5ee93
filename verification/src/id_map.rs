//! A map keyed by 128-bit identifiers, held in std's `HashMap`, that also
//! remembers the order in which keys were first added.
use vstd::prelude::*;
use std::collections::HashMap;

verus! {

broadcast use vstd::std_specs::hash::group_hash_axioms;

/// Keys listed at most once.
pub open spec fn unique_ids(keys: Seq<u128>) -> bool {
    forall|i: int, j: int| 0 <= i < j < keys.len() ==> keys[i] != keys[j]
}

/// A map from identifiers to values that keeps keys in the order they were
/// first added. The values live in a `HashMap`; the order of the keys is
/// kept beside it, since a `HashMap` is walked in an order of its own.
pub struct GrassIdMap<V> {
    map: HashMap<u128, V>,
    order: Vec<u128>,
}

impl<V> View for GrassIdMap<V> {
    type V = Map<u128, V>;

    closed spec fn view(&self) -> Map<u128, V> {
        self.map@
    }
}

impl<V> GrassIdMap<V> {
    /// The keys, in the order they were first added.
    pub closed spec fn key_order(&self) -> Seq<u128> {
        self.order@
    }

    /// Every key is listed once, and the listed keys are the map's keys.
    pub closed spec fn wf(&self) -> bool {
        &&& unique_ids(self.order@)
        &&& forall|k: u128| #[trigger] self.map@.contains_key(k) <==> self.order@.contains(k)
    }

    pub proof fn lemma_keys(&self)
        requires
            self.wf(),
        ensures
            forall|k: u128| self@.contains_key(k) <==> self.key_order().contains(k),
            self@.dom().finite(),
            self@.dom().len() == self.key_order().len(),
    {
        let keys = self.key_order();
        assert(self@.dom() =~= keys.to_set());
        assert(keys.no_duplicates());
        keys.unique_seq_to_set();
    }

    /// An empty map.
    pub fn new() -> (r: Self)
        ensures
            r.wf(),
            r@ == Map::<u128, V>::empty(),
            r.key_order() == Seq::<u128>::empty(),
    {
        GrassIdMap { map: HashMap::new(), order: Vec::new() }
    }

    /// The value stored under `key`, if any.
    pub fn get(&self, key: u128) -> (r: Option<&V>)
        ensures
            match r {
                Some(v) => self@.contains_key(key) && self@[key] == *v,
                None => !self@.contains_key(key),
            },
    {
        self.map.get(&key)
    }

    /// Whether `key` is stored.
    pub fn contains_key(&self, key: u128) -> (r: bool)
        ensures
            r == self@.contains_key(key),
    {
        self.map.contains_key(&key)
    }

    /// Stores `value` under `key`, replacing any value stored before; a new
    /// key goes after the existing ones.
    pub fn insert(&mut self, key: u128, value: V)
        requires
            old(self).wf(),
        ensures
            final(self).wf(),
            final(self)@ == old(self)@.insert(key, value),
            old(self)@.contains_key(key) ==> final(self).key_order() == old(self).key_order(),
            !old(self)@.contains_key(key) ==> final(self).key_order() == old(self).key_order().push(
                key,
            ),
    {
        let ghost old_keys = self.order@;
        if !self.map.contains_key(&key) {
            self.order.push(key);
            proof {
                assert forall|i: int, j: int| 0 <= i < j < self.order@.len() implies self.order@[i]
                    != self.order@[j] by {
                    if j == old_keys.len() {
                        assert(old_keys.contains(old_keys[i]));
                    }
                }
                assert forall|k: u128| self.order@.contains(k) <==> (old_keys.contains(k) || k
                    == key) by {
                    if self.order@.contains(k) {
                        let i = choose|i: int| 0 <= i < self.order@.len() && self.order@[i] == k;
                        if i < old_keys.len() {
                            assert(old_keys[i] == k);
                        }
                    }
                    if old_keys.contains(k) {
                        let i = choose|i: int| 0 <= i < old_keys.len() && old_keys[i] == k;
                        assert(self.order@[i] == k);
                    }
                    if k == key {
                        assert(self.order@[old_keys.len() as int] == k);
                    }
                }
            }
        }
        self.map.insert(key, value);
    }

    /// Removes `key` and gives back its value, if it was stored; the other
    /// keys keep their order.
    pub fn remove(&mut self, key: u128) -> (r: Option<V>)
        requires
            old(self).wf(),
        ensures
            final(self).wf(),
            final(self)@ == old(self)@.remove(key),
            match r {
                Some(v) => old(self)@.contains_key(key) && old(self)@[key] == v,
                None => !old(self)@.contains_key(key),
            },
            final(self).key_order() == without_id(old(self).key_order(), key),
    {
        let ghost old_keys = self.order@;
        let r = self.map.remove(&key);
        match r {
            Some(_) => {
                let mut i: usize = 0;
                while i < self.order.len() && self.order[i] != key
                    invariant
                        self.order@ == old_keys,
                        old_keys.contains(key),
                        i <= self.order.len(),
                        forall|j: int| 0 <= j < i ==> old_keys[j] != key,
                    decreases self.order.len() - i,
                {
                    i = i + 1;
                }
                if i == self.order.len() {
                    proof {
                        let j = choose|j: int| 0 <= j < old_keys.len() && old_keys[j] == key;
                        assert(old_keys[j] != key);
                    }
                }
                self.order.remove(i);
                proof {
                    lemma_id_filter_remove_unique(old_keys, i as int);
                    let keys = self.order@;
                    assert forall|a: int, b: int| 0 <= a < b < keys.len() implies keys[a]
                        != keys[b] by {
                        let oa = if a < i { a } else { a + 1 };
                        let ob = if b < i { b } else { b + 1 };
                        assert(keys[a] == old_keys[oa]);
                        assert(keys[b] == old_keys[ob]);
                    }
                    assert forall|k: u128| keys.contains(k) <==> (old_keys.contains(k) && k
                        != key) by {
                        if keys.contains(k) {
                            let a = choose|a: int| 0 <= a < keys.len() && keys[a] == k;
                            let oa = if a < i { a } else { a + 1 };
                            assert(old_keys[oa] == k);
                            if k == key {
                                assert(old_keys[i as int] == key);
                            }
                        }
                        if old_keys.contains(k) && k != key {
                            let oa = choose|oa: int| 0 <= oa < old_keys.len() && old_keys[oa] == k;
                            let a = if oa < i { oa } else { oa - 1 };
                            assert(keys[a] == k);
                        }
                    }
                }
            },
            None => {
                proof {
                    lemma_id_filter_absent(old_keys, key);
                }
            },
        }
        r
    }

    /// The number of stored keys.
    pub fn len(&self) -> (r: usize)
        requires
            self.wf(),
        ensures
            r == self@.dom().len(),
            r == self.key_order().len(),
    {
        proof {
            self.lemma_keys();
        }
        self.order.len()
    }

    /// The stored keys, in the order they were first added.
    pub fn keys(&self) -> (r: Vec<u128>)
        ensures
            r@ == self.key_order(),
    {
        let mut r: Vec<u128> = Vec::new();
        let mut i: usize = 0;
        while i < self.order.len()
            invariant
                i <= self.order.len(),
                r@ == self.order@.take(i as int),
            decreases self.order.len() - i,
        {
            r.push(self.order[i]);
            i = i + 1;
            assert(r@ =~= self.order@.take(i as int));
        }
        assert(self.order@.take(self.order.len() as int) =~= self.order@);
        r
    }

    /// The stored values, in the order their keys were first added.
    pub fn values(&self) -> (r: Vec<&V>)
        requires
            self.wf(),
        ensures
            r@.len() == self.key_order().len(),
            forall|i: int| 0 <= i < r@.len() ==> *r@[i] == self@[self.key_order()[i]],
    {
        let mut r: Vec<&V> = Vec::new();
        let mut i: usize = 0;
        while i < self.order.len()
            invariant
                self.wf(),
                i <= self.order.len(),
                r@.len() == i,
                forall|j: int| 0 <= j < i ==> *r@[j] == self@[self.order@[j]],
            decreases self.order.len() - i,
        {
            let k = self.order[i];
            assert(self.order@.contains(k));
            let v = self.map.get(&k).unwrap();
            r.push(v);
            i = i + 1;
        }
        r
    }

    /// The value of the first key, in the order keys were first added.
    pub fn first_value(&self) -> (r: Option<&V>)
        requires
            self.wf(),
        ensures
            self.key_order().len() == 0 ==> r is None,
            self.key_order().len() > 0 ==> r == Some(&self@[self.key_order()[0]]),
    {
        if self.order.len() == 0 {
            None
        } else {
            let k = self.order[0];
            assert(self.order@.contains(k));
            self.map.get(&k)
        }
    }
}

/// `s` without the occurrences of `k`.
pub open spec fn without_id(s: Seq<u128>, k: u128) -> Seq<u128> {
    s.filter(|x: u128| x != k)
}

proof fn lemma_id_filter_absent(s: Seq<u128>, k: u128)
    requires
        !s.contains(k),
    ensures
        without_id(s, k) == s,
    decreases s.len(),
{
    reveal(Seq::filter);
    if s.len() > 0 {
        assert(!s.drop_last().contains(k)) by {
            if s.drop_last().contains(k) {
                let j = choose|j: int| 0 <= j < s.drop_last().len() && s.drop_last()[j] == k;
                assert(s[j] == k);
            }
        }
        lemma_id_filter_absent(s.drop_last(), k);
        assert(without_id(s, k) == without_id(s.drop_last(), k).push(s.last()));
        assert(s.drop_last().push(s.last()) =~= s);
    }
}

proof fn lemma_id_filter_remove_unique(s: Seq<u128>, i: int)
    requires
        unique_ids(s),
        0 <= i < s.len(),
    ensures
        without_id(s, s[i]) == s.remove(i),
    decreases s.len(),
{
    reveal(Seq::filter);
    let k = s[i];
    if i == s.len() - 1 {
        assert(!s.drop_last().contains(k)) by {
            if s.drop_last().contains(k) {
                let j = choose|j: int| 0 <= j < s.drop_last().len() && s.drop_last()[j] == k;
                assert(s[j] == k);
            }
        }
        lemma_id_filter_absent(s.drop_last(), k);
        assert(without_id(s, k) == without_id(s.drop_last(), k));
        assert(s.remove(i) =~= s.drop_last());
    } else {
        let d = s.drop_last();
        assert(unique_ids(d));
        assert(d[i] == k);
        lemma_id_filter_remove_unique(d, i);
        assert(s.last() != k);
        assert(without_id(s, k) == without_id(d, k).push(s.last()));
        assert(s.remove(i) =~= d.remove(i).push(s.last()));
    }
}

} // verus!
