//! A keyed table: the finite map of the keys written so far, each with its
//! current value.  A ledger reads a key that was never written as that
//! record's zero value; [`read`] is that rule.

use crate::primitives::{Address, FixedBytes};
use crate::u256::U256;
use vstd::prelude::*;

verus! {

/// A type that can key a [`Table`]: it can decide at run time whether two
/// of its values are equal.
pub trait Key: Sized {
    fn key_eq(&self, other: &Self) -> (r: bool)
        ensures
            r == (*self == *other),
    ;
}

impl Key for Address {
    fn key_eq(&self, other: &Self) -> (r: bool) {
        self.same(other)
    }
}

impl<const N: usize> Key for FixedBytes<N> {
    fn key_eq(&self, other: &Self) -> (r: bool) {
        self.same(other)
    }
}

impl Key for U256 {
    fn key_eq(&self, other: &Self) -> (r: bool) {
        *self == *other
    }
}

impl<A: Key, B: Key> Key for (A, B) {
    fn key_eq(&self, other: &Self) -> (r: bool) {
        self.0.key_eq(&other.0) && self.1.key_eq(&other.1)
    }
}

/// One written key with its current value.
struct Entry<K, V> {
    key: K,
    value: V,
}

/// Whether some entry of `s` holds key `k`.
spec fn has_key<K, V>(s: Seq<Entry<K, V>>, k: K) -> bool {
    exists|i: int| 0 <= i < s.len() && (#[trigger] s[i]).key == k
}

/// The position of key `k` in `s`, where it has one.
spec fn position_of<K, V>(s: Seq<Entry<K, V>>, k: K) -> int {
    choose|i: int| 0 <= i < s.len() && (#[trigger] s[i]).key == k
}

/// No key is held by two entries.
spec fn distinct_keys<K, V>(s: Seq<Entry<K, V>>) -> bool {
    forall|i: int, j: int|
        0 <= i < j < s.len() ==> (#[trigger] s[i]).key != (#[trigger] s[j]).key
}

/// The finite map that a sequence of entries spells.
spec fn entries_map<K, V>(s: Seq<Entry<K, V>>) -> Map<K, V> {
    Map::new(|k: K| has_key(s, k), |k: K| s[position_of(s, k)].value)
}

/// With distinct keys, the entry at position `i` is what the map holds for
/// its key.
proof fn lemma_entry_in_map<K, V>(s: Seq<Entry<K, V>>, i: int)
    requires
        distinct_keys(s),
        0 <= i < s.len(),
    ensures
        entries_map(s).contains_key(s[i].key),
        entries_map(s)[s[i].key] == s[i].value,
        position_of(s, s[i].key) == i,
{
    let k = s[i].key;
    assert(has_key(s, k));
    let j = position_of(s, k);
    assert(0 <= j < s.len() && s[j].key == k);
    if j < i {
        assert(s[j].key != s[i].key);
    } else if i < j {
        assert(s[i].key != s[j].key);
    }
}

/// Appending an entry with a fresh key inserts it into the map.
proof fn lemma_push_fresh<K, V>(s: Seq<Entry<K, V>>, e: Entry<K, V>)
    requires
        distinct_keys(s),
        !has_key(s, e.key),
    ensures
        distinct_keys(s.push(e)),
        entries_map(s.push(e)) == entries_map(s).insert(e.key, e.value),
{
    let t = s.push(e);
    assert forall|i: int, j: int| 0 <= i < j < t.len() implies (#[trigger] t[i]).key != (
    #[trigger] t[j]).key by {
        if j < s.len() {
            assert(s[i].key != s[j].key);
        } else {
            assert(t[i] == s[i]);
            if t[i].key == e.key {
                assert(has_key(s, e.key));
            }
        }
    }
    assert forall|k: K| has_key(t, k) <==> (k == e.key || has_key(s, k)) by {
        if has_key(t, k) {
            let i = choose|i: int| 0 <= i < t.len() && (#[trigger] t[i]).key == k;
            if i < s.len() {
                assert(s[i].key == k);
            }
        }
        if k == e.key {
            assert(t[s.len() as int].key == k);
        }
        if has_key(s, k) {
            let i = choose|i: int| 0 <= i < s.len() && (#[trigger] s[i]).key == k;
            assert(t[i].key == k);
        }
    }
    assert forall|k: K| has_key(t, k) implies #[trigger] entries_map(t)[k] == entries_map(
        s,
    ).insert(e.key, e.value)[k] by {
        let i = position_of(t, k);
        lemma_entry_in_map(t, i);
        if i < s.len() {
            assert(t[i] == s[i]);
            lemma_entry_in_map(s, i);
        }
    }
    assert(entries_map(t) =~= entries_map(s).insert(e.key, e.value));
}

/// Replacing the value at position `i` updates the map at that key.
proof fn lemma_update_value<K, V>(s: Seq<Entry<K, V>>, i: int, v: V)
    requires
        distinct_keys(s),
        0 <= i < s.len(),
    ensures
        distinct_keys(s.update(i, Entry { key: s[i].key, value: v })),
        entries_map(s.update(i, Entry { key: s[i].key, value: v })) == entries_map(s).insert(
            s[i].key,
            v,
        ),
{
    let t = s.update(i, Entry { key: s[i].key, value: v });
    assert forall|a: int| 0 <= a < t.len() implies (#[trigger] t[a]).key == s[a].key by {}
    assert forall|a: int, b: int| 0 <= a < b < t.len() implies (#[trigger] t[a]).key != (
    #[trigger] t[b]).key by {
        assert(s[a].key != s[b].key);
    }
    assert forall|k: K| has_key(t, k) <==> has_key(s, k) by {
        if has_key(t, k) {
            let a = choose|a: int| 0 <= a < t.len() && (#[trigger] t[a]).key == k;
            assert(s[a].key == k);
        }
        if has_key(s, k) {
            let a = choose|a: int| 0 <= a < s.len() && (#[trigger] s[a]).key == k;
            assert(t[a].key == k);
        }
    }
    lemma_entry_in_map(s, i);
    assert forall|k: K| has_key(t, k) implies #[trigger] entries_map(t)[k] == entries_map(
        s,
    ).insert(s[i].key, v)[k] by {
        let a = position_of(t, k);
        lemma_entry_in_map(t, a);
        lemma_entry_in_map(s, a);
    }
    assert(entries_map(t) =~= entries_map(s).insert(s[i].key, v));
}

/// What key `k` reads as in `m`: its value where it was written, `fallback`
/// where it never was.
pub open spec fn read<K, V>(m: Map<K, V>, k: K, fallback: V) -> V {
    if m.contains_key(k) {
        m[k]
    } else {
        fallback
    }
}

/// A table from `K` to `V`; its view is the map of the keys written so far.
pub struct Table<K, V> {
    entries: Vec<Entry<K, V>>,
}

impl<K, V> View for Table<K, V> {
    type V = Map<K, V>;

    closed spec fn view(&self) -> Map<K, V> {
        entries_map(self.entries@)
    }
}

impl<K, V> Table<K, V> {
    #[verifier::type_invariant]
    spec fn well_formed(&self) -> bool {
        distinct_keys(self.entries@)
    }
}

impl<K: Key, V> Table<K, V> {
    /// The empty table.
    pub fn new() -> (t: Self)
        ensures
            t@ == Map::<K, V>::empty(),
    {
        let t = Table { entries: Vec::new() };
        assert(t@ =~= Map::<K, V>::empty());
        t
    }

    /// Where key `k` is held, if it was written.
    fn find(&self, k: &K) -> (r: Option<usize>)
        ensures
            match r {
                Some(i) => i < self.entries@.len() && self.entries@[i as int].key == *k,
                None => !has_key(self.entries@, *k),
            },
    {
        let n = self.entries.len();
        let mut i: usize = 0;
        while i < n
            invariant
                n == self.entries@.len(),
                i <= n,
                forall|j: int| 0 <= j < i ==> (#[trigger] self.entries@[j]).key != *k,
            decreases n - i,
        {
            if self.entries[i].key.key_eq(k) {
                return Some(i);
            }
            i = i + 1;
        }
        None
    }

    /// Whether key `k` was ever written.
    pub fn contains(&self, k: &K) -> (r: bool)
        ensures
            r == self@.contains_key(*k),
    {
        self.find(k).is_some()
    }

    /// The value written at key `k`, if any.
    pub fn get(&self, k: &K) -> (r: Option<&V>)
        ensures
            match r {
                Some(v) => self@.contains_key(*k) && *v == self@[*k],
                None => !self@.contains_key(*k),
            },
    {
        proof {
            use_type_invariant(self);
        }
        match self.find(k) {
            Some(i) => {
                proof {
                    lemma_entry_in_map(self.entries@, i as int);
                }
                Some(&self.entries[i].value)
            },
            None => None,
        }
    }

    /// Writes `v` at key `k`.
    pub fn set(&mut self, k: K, v: V)
        ensures
            final(self)@ == old(self)@.insert(k, v),
    {
        proof {
            use_type_invariant(&*self);
        }
        match self.find(&k) {
            Some(i) => {
                proof {
                    lemma_update_value(self.entries@, i as int, v);
                }
                let ghost before = self.entries@;
                let mut entries: Vec<Entry<K, V>> = Vec::new();
                core::mem::swap(&mut self.entries, &mut entries);
                entries[i].value = v;
                assert(entries@ =~= before.update(
                    i as int,
                    Entry { key: before[i as int].key, value: v },
                ));
                core::mem::swap(&mut self.entries, &mut entries);
            },
            None => {
                let e = Entry { key: k, value: v };
                proof {
                    lemma_push_fresh(self.entries@, e);
                }
                let mut entries: Vec<Entry<K, V>> = Vec::new();
                core::mem::swap(&mut self.entries, &mut entries);
                entries.push(e);
                core::mem::swap(&mut self.entries, &mut entries);
            },
        }
    }
}

impl<K: Key, V: Copy> Table<K, V> {
    /// What key `k` reads as: its value, or `fallback` if it was never
    /// written.
    pub fn get_or(&self, k: &K, fallback: V) -> (v: V)
        ensures
            v == read(self@, *k, fallback),
    {
        match self.get(k) {
            Some(v) => *v,
            None => fallback,
        }
    }
}

} // verus!
