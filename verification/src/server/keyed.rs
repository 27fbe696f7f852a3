//! Lists whose items are told apart by a key, seen as maps from keys; and
//! the keys of a hash map as a list.

use std::collections::{HashMap, HashSet};
use vstd::prelude::*;
use vstd::std_specs::iter::IteratorSpec;

verus! {

/// No key is used twice.
pub open spec fn distinct_keys<T, K>(s: Seq<T>, key: spec_fn(T) -> K) -> bool {
    forall|i: int, j: int| 0 <= i < j < s.len() ==> key(#[trigger] s[i]) != key(#[trigger] s[j])
}

/// Where the item with key `k` is.
pub open spec fn key_index<T, K>(s: Seq<T>, key: spec_fn(T) -> K, k: K) -> int {
    choose|i: int| 0 <= i < s.len() && key(#[trigger] s[i]) == k
}

/// The items by key, each taken through `val`.
pub open spec fn keyed_map<T, K, V>(s: Seq<T>, key: spec_fn(T) -> K, val: spec_fn(T) -> V) -> Map<K, V> {
    Map::new(
        |k: K| exists|i: int| 0 <= i < s.len() && key(#[trigger] s[i]) == k,
        |k: K| val(s[key_index(s, key, k)]),
    )
}

pub proof fn lemma_keyed_at<T, K, V>(s: Seq<T>, key: spec_fn(T) -> K, val: spec_fn(T) -> V, i: int)
    requires
        distinct_keys(s, key),
        0 <= i < s.len(),
    ensures
        keyed_map(s, key, val).dom().contains(key(s[i])),
        keyed_map(s, key, val)[key(s[i])] == val(s[i]),
{
    let k = key(s[i]);
    assert(exists|j: int| 0 <= j < s.len() && key(#[trigger] s[j]) == k);
    let j = key_index(s, key, k);
    if j != i {
        if j < i {
            assert(key(s[j]) != key(s[i]));
        } else {
            assert(key(s[i]) != key(s[j]));
        }
    }
}

pub proof fn lemma_keyed_remove<T, K, V>(s: Seq<T>, key: spec_fn(T) -> K, val: spec_fn(T) -> V, i: int)
    requires
        distinct_keys(s, key),
        0 <= i < s.len(),
    ensures
        distinct_keys(s.remove(i), key),
        keyed_map(s.remove(i), key, val) == keyed_map(s, key, val).remove(key(s[i])),
{
    let t = s.remove(i);
    let k = key(s[i]);
    let m = keyed_map(s, key, val);
    assert(distinct_keys(t, key)) by {
        assert forall|a: int, b: int| 0 <= a < b < t.len() implies key(#[trigger] t[a]) != key(#[trigger] t[b]) by {
            let a2 = if a < i { a } else { a + 1 };
            let b2 = if b < i { b } else { b + 1 };
            assert(t[a] == s[a2]);
            assert(t[b] == s[b2]);
            assert(key(s[a2]) != key(s[b2]));
        }
    }
    assert(keyed_map(t, key, val) =~= m.remove(k)) by {
        assert forall|y: K| keyed_map(t, key, val).dom().contains(y) <==> m.remove(k).dom().contains(y) by {
            if keyed_map(t, key, val).dom().contains(y) {
                let j = choose|j: int| 0 <= j < t.len() && key(#[trigger] t[j]) == y;
                let j2 = if j < i { j } else { j + 1 };
                assert(t[j] == s[j2]);
                lemma_keyed_at(s, key, val, j2);
                if j2 < i {
                    assert(key(s[j2]) != key(s[i]));
                } else {
                    assert(key(s[i]) != key(s[j2]));
                }
            }
            if m.dom().contains(y) && y != k {
                let j = choose|j: int| 0 <= j < s.len() && key(#[trigger] s[j]) == y;
                let j2 = if j < i { j } else { j - 1 };
                assert(j != i);
                assert(t[j2] == s[j]);
                lemma_keyed_at(t, key, val, j2);
            }
        }
        assert forall|y: K| #[trigger] keyed_map(t, key, val).dom().contains(y) implies keyed_map(t, key, val)[y] == m.remove(k)[y] by {
            let j = choose|j: int| 0 <= j < t.len() && key(#[trigger] t[j]) == y;
            let j2 = if j < i { j } else { j + 1 };
            assert(t[j] == s[j2]);
            lemma_keyed_at(t, key, val, j);
            lemma_keyed_at(s, key, val, j2);
        }
    }
}

/// A list without repeated keys has as many keys as entries.
pub proof fn lemma_keyed_len<T, K, V>(s: Seq<T>, key: spec_fn(T) -> K, val: spec_fn(T) -> V)
    requires
        distinct_keys(s, key),
    ensures
        keyed_map(s, key, val).dom().finite(),
        keyed_map(s, key, val).dom().len() == s.len(),
{
    let ks = s.map_values(key);
    assert(ks.no_duplicates()) by {
        assert forall|i: int, j: int| 0 <= i < ks.len() && 0 <= j < ks.len() && i != j implies ks[i] != ks[j] by {
            if i < j {
                assert(key(s[i]) != key(s[j]));
            } else {
                assert(key(s[j]) != key(s[i]));
            }
        }
    }
    ks.unique_seq_to_set();
    vstd::seq_lib::seq_to_set_is_finite(ks);
    assert(keyed_map(s, key, val).dom() =~= ks.to_set()) by {
        assert forall|k: K| keyed_map(s, key, val).dom().contains(k) implies ks.to_set().contains(k) by {
            let i = choose|i: int| 0 <= i < s.len() && key(#[trigger] s[i]) == k;
            assert(ks[i] == k);
        }
        assert forall|k: K| ks.to_set().contains(k) implies keyed_map(s, key, val).dom().contains(k) by {
            let i = choose|i: int| 0 <= i < ks.len() && ks[i] == k;
            assert(key(s[i]) == k);
        }
    }
}

/// The keys of a map, each once, in the order the map gives them.
pub fn keys_of<K: Copy, V>(m: &HashMap<K, V>) -> (r: Vec<K>)
    requires
        vstd::std_specs::hash::obeys_key_model::<K>(),
    ensures
        r@.to_set() == m@.dom(),
        r@.no_duplicates(),
{
    broadcast use vstd::std_specs::hash::group_hash_axioms;

    let mut out: Vec<K> = Vec::new();
    let ghost ks = vstd::std_specs::hash::spec_keys_iter(m).remaining();
    for k in it: m.keys()
        invariant
            ks == vstd::std_specs::hash::spec_keys_iter(m).remaining(),
            it.seq() == ks,
            out@ == ks.take(it.index() as int).map_values(|x: &K| *x),
    {
        out.push(*k);
    }
    assert(out@ =~= ks.unref());
    out
}

/// The elements of a set, each once, in the order the set gives them.
pub fn elements_of<K: Copy>(s: &HashSet<K>) -> (r: Vec<K>)
    requires
        vstd::std_specs::hash::obeys_key_model::<K>(),
    ensures
        r@.to_set() == s@,
        r@.no_duplicates(),
{
    broadcast use vstd::std_specs::hash::group_hash_axioms;

    let mut out: Vec<K> = Vec::new();
    let ghost ks = vstd::std_specs::hash::spec_hash_keys_iter(s).remaining();
    for k in it: s.iter()
        invariant
            ks == vstd::std_specs::hash::spec_hash_keys_iter(s).remaining(),
            it.seq() == ks,
            out@ == ks.take(it.index() as int).map_values(|x: &K| *x),
    {
        out.push(*k);
    }
    assert(out@ =~= ks.unref());
    out
}

} // verus!
