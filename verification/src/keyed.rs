//! A map from string keys to values that remembers insertion order.
//!
//! The library keys its tables (device mappings, per-device results, cached
//! replies, registered devices) by name. `KeyedList` holds them as a vector of
//! pairs whose keys never repeat; its view is that sequence of pairs.

use vstd::prelude::*;
use crate::text::str_eq;

verus! {

/// No key occurs twice.
pub open spec fn keys_distinct<V>(s: Seq<(Seq<char>, V)>) -> bool {
    forall|i: int, j: int| 0 <= i < s.len() && 0 <= j < s.len() && i != j ==> s[i].0 != s[j].0
}

/// Some pair has key `k`.
pub open spec fn has_key<V>(s: Seq<(Seq<char>, V)>, k: Seq<char>) -> bool {
    exists|i: int| 0 <= i < s.len() && s[i].0 == k
}

/// A position whose key is `k` (the only one when keys are distinct).
pub open spec fn key_index<V>(s: Seq<(Seq<char>, V)>, k: Seq<char>) -> int {
    choose|i: int| 0 <= i < s.len() && s[i].0 == k
}

/// The value stored under `k`.
pub open spec fn assoc_get<V>(s: Seq<(Seq<char>, V)>, k: Seq<char>) -> Option<V> {
    if has_key(s, k) { Some(s[key_index(s, k)].1) } else { None }
}

/// Stores `v` under `k`: an existing pair keeps its place and gets the new
/// value, a new key goes at the end.
pub open spec fn assoc_insert<V>(s: Seq<(Seq<char>, V)>, k: Seq<char>, v: V) -> Seq<(Seq<char>, V)> {
    if has_key(s, k) { s.update(key_index(s, k), (k, v)) } else { s.push((k, v)) }
}

/// With distinct keys, the position of a key is the one found by scanning.
pub proof fn lemma_key_index_unique<V>(s: Seq<(Seq<char>, V)>, k: Seq<char>, i: int)
    requires
        keys_distinct(s),
        0 <= i < s.len(),
        s[i].0 == k,
    ensures
        has_key(s, k),
        key_index(s, k) == i,
        assoc_get(s, k) == Some(s[i].1),
{
    assert(has_key(s, k));
}

/// Inserting keeps keys distinct.
pub proof fn lemma_insert_distinct<V>(s: Seq<(Seq<char>, V)>, k: Seq<char>, v: V)
    requires
        keys_distinct(s),
    ensures
        keys_distinct(assoc_insert(s, k, v)),
{
    if has_key(s, k) {
        let i = key_index(s, k);
        assert(s[i].0 == k);
    }
}

/// What a lookup gives back after an insertion: the inserted value under its
/// own key, and the old value under every other key.
pub proof fn lemma_get_after_insert<V>(s: Seq<(Seq<char>, V)>, k: Seq<char>, v: V, q: Seq<char>)
    requires
        keys_distinct(s),
    ensures
        assoc_get(assoc_insert(s, k, v), k) == Some(v),
        q != k ==> assoc_get(assoc_insert(s, k, v), q) == assoc_get(s, q),
        assoc_insert(s, k, v).len() == s.len() + (if has_key(s, k) { 0int } else { 1int }),
{
    lemma_insert_distinct(s, k, v);
    let t = assoc_insert(s, k, v);
    if has_key(s, k) {
        let i = key_index(s, k);
        lemma_key_index_unique(t, k, i);
        if q != k {
            if has_key(s, q) {
                let j = key_index(s, q);
                assert(t[j] == s[j]);
                lemma_key_index_unique(t, q, j);
            } else {
                assert forall|j: int| 0 <= j < t.len() implies t[j].0 != q by {
                    if j != i { assert(t[j] == s[j]); }
                }
            }
        }
    } else {
        lemma_key_index_unique(t, k, s.len() as int);
        if q != k {
            if has_key(s, q) {
                let j = key_index(s, q);
                assert(t[j] == s[j]);
                lemma_key_index_unique(t, q, j);
            } else {
                assert forall|j: int| 0 <= j < t.len() implies t[j].0 != q by {
                    if j < s.len() { assert(t[j] == s[j]); }
                }
            }
        }
    }
}

/// Pairs of a string key and a value, keys distinct, in insertion order.
pub struct KeyedList<V: View> {
    entries: Vec<(String, V)>,
}

impl<V: View> View for KeyedList<V> {
    type V = Seq<(Seq<char>, V::V)>;

    closed spec fn view(&self) -> Seq<(Seq<char>, V::V)> {
        self.entries@.map_values(|e: (String, V)| (e.0@, e.1@))
    }
}

impl<V: View> KeyedList<V> {
    /// The list's keys are distinct.
    pub closed spec fn wf(&self) -> bool {
        keys_distinct(self@)
    }

    /// A well-formed list has distinct keys.
    pub proof fn lemma_wf(&self)
        requires
            self.wf(),
        ensures
            keys_distinct(self@),
    {
    }

    /// An empty list.
    pub fn new() -> (r: Self)
        ensures
            r.wf(),
            r@ == Seq::<(Seq<char>, V::V)>::empty(),
    {
        let r = KeyedList { entries: Vec::new() };
        proof { assert(r@ =~= Seq::<(Seq<char>, V::V)>::empty()); }
        r
    }

    /// Number of keys.
    pub fn len(&self) -> (n: usize)
        ensures
            n == self@.len(),
    {
        self.entries.len()
    }

    /// Whether the list is empty.
    pub fn is_empty(&self) -> (b: bool)
        ensures
            b == (self@.len() == 0),
    {
        self.entries.len() == 0
    }

    /// The position of key `k`, if present.
    pub fn find(&self, k: &str) -> (r: Option<usize>)
        requires
            self.wf(),
        ensures
            match r {
                Some(i) => i < self@.len() && self@[i as int].0 == k@ && key_index(self@, k@) == i
                    && has_key(self@, k@),
                None => !has_key(self@, k@),
            },
    {
        let mut i: usize = 0;
        while i < self.entries.len()
            invariant
                0 <= i <= self.entries@.len(),
                keys_distinct(self@),
                forall|j: int| 0 <= j < i ==> self@[j].0 != k@,
            decreases self.entries@.len() - i,
        {
            let e = &self.entries[i];
            assert(self@[i as int].0 == e.0@);
            if str_eq(e.0.as_str(), k) {
                proof { lemma_key_index_unique(self@, k@, i as int); }
                return Some(i);
            }
            i = i + 1;
        }
        None
    }

    /// Whether key `k` is present.
    pub fn contains_key(&self, k: &str) -> (b: bool)
        requires
            self.wf(),
        ensures
            b == has_key(self@, k@),
    {
        self.find(k).is_some()
    }

    /// The value under key `k`, if present.
    pub fn get(&self, k: &str) -> (r: Option<&V>)
        requires
            self.wf(),
        ensures
            match r {
                Some(v) => assoc_get(self@, k@) == Some(v@),
                None => assoc_get(self@, k@) is None,
            },
    {
        match self.find(k) {
            Some(i) => {
                assert(self@[i as int].1 == self.entries@[i as int].1@);
                Some(&self.entries[i].1)
            },
            None => None,
        }
    }

    /// The key at position `i`.
    pub fn key_at(&self, i: usize) -> (r: &String)
        requires
            i < self@.len(),
        ensures
            r@ == self@[i as int].0,
    {
        &self.entries[i].0
    }

    /// The value at position `i`.
    pub fn value_at(&self, i: usize) -> (r: &V)
        requires
            i < self@.len(),
        ensures
            r@ == self@[i as int].1,
    {
        &self.entries[i].1
    }

    /// Removes key `k` and gives back its value, if it was present; the other
    /// pairs keep their order.
    pub fn remove(&mut self, k: &str) -> (r: Option<V>)
        requires
            old(self).wf(),
        ensures
            final(self).wf(),
            match r {
                Some(v) => has_key(old(self)@, k@) && assoc_get(old(self)@, k@) == Some(v@)
                    && final(self)@ == old(self)@.remove(key_index(old(self)@, k@)),
                None => !has_key(old(self)@, k@) && final(self)@ == old(self)@,
            },
    {
        match self.find(k) {
            Some(i) => {
                let (_, v) = self.entries.remove(i);
                proof {
                    assert(self@ =~= old(self)@.remove(i as int));
                    assert forall|a: int, b: int| 0 <= a < self@.len() && 0 <= b < self@.len() && a != b
                        implies self@[a].0 != self@[b].0 by {
                        let oa = if a < i { a } else { a + 1 };
                        let ob = if b < i { b } else { b + 1 };
                        assert(self@[a] == old(self)@[oa]);
                        assert(self@[b] == old(self)@[ob]);
                    }
                }
                Some(v)
            },
            None => None,
        }
    }

    /// The keys, in order.
    pub fn keys(&self) -> (r: Vec<String>)
        ensures
            r@.len() == self@.len(),
            forall|i: int| 0 <= i < r@.len() ==> (#[trigger] r@[i])@ == self@[i].0,
    {
        let mut r: Vec<String> = Vec::new();
        let mut i: usize = 0;
        while i < self.entries.len()
            invariant
                0 <= i <= self@.len(),
                r@.len() == i,
                forall|j: int| 0 <= j < i ==> (#[trigger] r@[j])@ == self@[j].0,
            decreases self@.len() - i,
        {
            r.push(self.entries[i].0.clone());
            i = i + 1;
        }
        r
    }

    /// Stores `v` under `k`, replacing the value of an existing key in place.
    pub fn insert(&mut self, k: String, v: V)
        requires
            old(self).wf(),
        ensures
            final(self).wf(),
            final(self)@ == assoc_insert(old(self)@, k@, v@),
    {
        proof { lemma_insert_distinct(self@, k@, v@); }
        match self.find(k.as_str()) {
            Some(i) => {
                let ghost kv = k@;
                let ghost vv = v@;
                self.entries.set(i, (k, v));
                proof {
                    assert(self@ =~= old(self)@.update(i as int, (kv, vv)));
                }
            },
            None => {
                let ghost kv = k@;
                let ghost vv = v@;
                self.entries.push((k, v));
                proof {
                    assert(self@ =~= old(self)@.push((kv, vv)));
                }
            },
        }
    }
}

/// Appends `x` to the list stored under `k`, starting a list for a new key.
pub open spec fn assoc_append<T>(s: Seq<(Seq<char>, Seq<T>)>, k: Seq<char>, x: T) -> Seq<(Seq<char>, Seq<T>)> {
    if has_key(s, k) {
        s.update(key_index(s, k), (k, s[key_index(s, k)].1.push(x)))
    } else {
        s.push((k, seq![x]))
    }
}

/// The items of `items` grouped by `key`, groups in order of first appearance.
pub open spec fn group_by<T>(items: Seq<T>, key: spec_fn(T) -> Seq<char>) -> Seq<(Seq<char>, Seq<T>)>
    decreases items.len(),
{
    if items.len() == 0 {
        Seq::empty()
    } else {
        assoc_append(group_by(items.drop_last(), key), key(items.last()), items.last())
    }
}

impl<T> KeyedList<Vec<T>> {
    /// Appends `x` to the list under `k`.
    pub fn append_to(&mut self, k: String, x: T)
        requires
            old(self).wf(),
        ensures
            final(self).wf(),
            final(self)@ == assoc_append(old(self)@, k@, x),
    {
        match self.find(k.as_str()) {
            Some(i) => {
                self.push_to(i, x);
            },
            None => {
                let mut v: Vec<T> = Vec::new();
                v.push(x);
                let ghost vv = v@;
                self.insert(k, v);
                proof { assert(vv =~= seq![x]); }
            },
        }
    }

    /// Appends `item` to the list stored at position `i`.
    pub fn push_to(&mut self, i: usize, item: T)
        requires
            i < old(self)@.len(),
        ensures
            final(self)@ == old(self)@.update(i as int, (old(self)@[i as int].0, old(self)@[i as int].1.push(item))),
            old(self).wf() ==> final(self).wf(),
    {
        let (k, mut v) = self.entries.remove(i);
        let ghost kv = k@;
        v.push(item);
        let ghost vv = v@;
        self.entries.insert(i, (k, v));
        proof {
            assert(self@ =~= old(self)@.update(i as int, (kv, vv)));
            if keys_distinct(old(self)@) {
                assert forall|a: int, b: int| 0 <= a < self@.len() && 0 <= b < self@.len() && a != b
                    implies self@[a].0 != self@[b].0 by {
                    assert(self@[a].0 == old(self)@[a].0);
                    assert(self@[b].0 == old(self)@[b].0);
                }
            }
        }
    }
}

} // verus!
