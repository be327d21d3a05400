//! Keyed records held in a sequence: the map that such a sequence stands for,
//! and how pushing, replacing and removing a record changes that map.

use vstd::prelude::*;

verus! {

/// No two records carry the same key.
pub open spec fn unique_keys<T, K>(s: Seq<T>, key: spec_fn(T) -> K) -> bool {
    forall|i: int, j: int|
        0 <= i < s.len() && 0 <= j < s.len() && i != j ==> key(#[trigger] s[i]) != key(
            #[trigger] s[j],
        )
}

/// Some record carries the key `k`.
pub open spec fn has_key<T, K>(s: Seq<T>, key: spec_fn(T) -> K, k: K) -> bool {
    exists|i: int| 0 <= i < s.len() && key(#[trigger] s[i]) == k
}

/// The place of a record that carries the key `k`.
pub open spec fn index_of<T, K>(s: Seq<T>, key: spec_fn(T) -> K, k: K) -> int {
    choose|i: int| 0 <= i < s.len() && key(#[trigger] s[i]) == k
}

/// The map from each key to the record that carries it.
pub open spec fn as_map<T, K>(s: Seq<T>, key: spec_fn(T) -> K) -> Map<K, T> {
    Map::new(|k: K| has_key(s, key, k), |k: K| s[index_of(s, key, k)])
}

/// The map holds each record under its key.
pub proof fn lemma_lookup<T, K>(s: Seq<T>, key: spec_fn(T) -> K, i: int)
    requires
        unique_keys(s, key),
        0 <= i < s.len(),
    ensures
        as_map(s, key).contains_key(key(s[i])),
        as_map(s, key)[key(s[i])] == s[i],
{
    let k = key(s[i]);
    assert(has_key(s, key, k));
    let j = index_of(s, key, k);
    assert(0 <= j < s.len() && key(s[j]) == k);
    assert(j == i);
}

/// A key that no record carries is not in the map.
pub proof fn lemma_missing<T, K>(s: Seq<T>, key: spec_fn(T) -> K, k: K)
    requires
        forall|i: int| 0 <= i < s.len() ==> key(#[trigger] s[i]) != k,
    ensures
        !as_map(s, key).contains_key(k),
{
}

/// Pushing a record with a new key inserts it into the map.
pub proof fn lemma_push<T, K>(s: Seq<T>, key: spec_fn(T) -> K, x: T)
    requires
        unique_keys(s, key),
        !as_map(s, key).contains_key(key(x)),
    ensures
        unique_keys(s.push(x), key),
        as_map(s.push(x), key) == as_map(s, key).insert(key(x), x),
{
    let t = s.push(x);
    let n = s.len() as int;
    assert forall|i: int| 0 <= i < n implies key(#[trigger] s[i]) != key(x) by {
        if key(s[i]) == key(x) {
            assert(has_key(s, key, key(x)));
        }
    }
    assert forall|i: int, j: int| 0 <= i < t.len() && 0 <= j < t.len() && i != j implies key(
        #[trigger] t[i],
    ) != key(#[trigger] t[j]) by {
        if i < n {
            assert(t[i] == s[i]);
        }
        if j < n {
            assert(t[j] == s[j]);
        }
    }
    let a = as_map(t, key);
    let b = as_map(s, key).insert(key(x), x);
    assert forall|k: K| a.contains_key(k) <==> b.contains_key(k) by {
        if a.contains_key(k) {
            let i = index_of(t, key, k);
            if i < n {
                assert(key(s[i]) == k);
            }
        }
        if b.contains_key(k) {
            if k == key(x) {
                assert(key(t[n]) == k);
            } else {
                let i = index_of(s, key, k);
                assert(key(t[i]) == k);
            }
        }
    }
    assert forall|k: K| a.contains_key(k) implies a[k] == b[k] by {
        let i = index_of(t, key, k);
        lemma_lookup(t, key, i);
        if i < n {
            assert(t[i] == s[i]);
            lemma_lookup(s, key, i);
        }
    }
    assert(a =~= b);
}

/// Replacing a record by one of the same key replaces it in the map.
pub proof fn lemma_update<T, K>(s: Seq<T>, key: spec_fn(T) -> K, i: int, x: T)
    requires
        unique_keys(s, key),
        0 <= i < s.len(),
        key(x) == key(s[i]),
    ensures
        unique_keys(s.update(i, x), key),
        as_map(s.update(i, x), key) == as_map(s, key).insert(key(x), x),
{
    let t = s.update(i, x);
    assert forall|p: int, q: int| 0 <= p < t.len() && 0 <= q < t.len() && p != q implies key(
        #[trigger] t[p],
    ) != key(#[trigger] t[q]) by {
        assert(key(t[p]) == key(s[p]));
        assert(key(t[q]) == key(s[q]));
    }
    let a = as_map(t, key);
    let b = as_map(s, key).insert(key(x), x);
    assert forall|k: K| a.contains_key(k) <==> b.contains_key(k) by {
        if a.contains_key(k) {
            let j = index_of(t, key, k);
            assert(key(s[j]) == k);
        }
        if b.contains_key(k) {
            if k == key(x) {
                assert(key(t[i]) == k);
            } else {
                let j = index_of(s, key, k);
                assert(key(t[j]) == k);
            }
        }
    }
    assert forall|k: K| a.contains_key(k) implies a[k] == b[k] by {
        let j = index_of(t, key, k);
        lemma_lookup(t, key, j);
        if j != i {
            assert(t[j] == s[j]);
            lemma_lookup(s, key, j);
        }
    }
    assert(a =~= b);
}

/// Removing a record removes its key from the map.
pub proof fn lemma_remove<T, K>(s: Seq<T>, key: spec_fn(T) -> K, i: int)
    requires
        unique_keys(s, key),
        0 <= i < s.len(),
    ensures
        unique_keys(s.remove(i), key),
        as_map(s.remove(i), key) == as_map(s, key).remove(key(s[i])),
{
    let t = s.remove(i);
    assert forall|p: int| 0 <= p < t.len() implies #[trigger] t[p] == s[if p < i {
        p
    } else {
        p + 1
    }] by {}
    assert forall|p: int, q: int| 0 <= p < t.len() && 0 <= q < t.len() && p != q implies key(
        #[trigger] t[p],
    ) != key(#[trigger] t[q]) by {
        let from_p = if p < i { p } else { p + 1 };
        let from_q = if q < i { q } else { q + 1 };
        assert(t[p] == s[from_p]);
        assert(t[q] == s[from_q]);
    }
    let a = as_map(t, key);
    let b = as_map(s, key).remove(key(s[i]));
    assert forall|k: K| a.contains_key(k) <==> b.contains_key(k) by {
        if a.contains_key(k) {
            let p = index_of(t, key, k);
            let from_p = if p < i { p } else { p + 1 };
            assert(t[p] == s[from_p]);
            assert(key(s[from_p]) == k);
            assert(has_key(s, key, k));
            assert(key(s[from_p]) != key(s[i]));
        }
        if b.contains_key(k) {
            let j = index_of(s, key, k);
            assert(j != i);
            let to_j = if j < i { j } else { j - 1 };
            assert(t[to_j] == s[j]);
            assert(key(t[to_j]) == k);
        }
    }
    assert forall|k: K| a.contains_key(k) implies a[k] == b[k] by {
        let p = index_of(t, key, k);
        lemma_lookup(t, key, p);
        let from_p = if p < i { p } else { p + 1 };
        assert(t[p] == s[from_p]);
        lemma_lookup(s, key, from_p);
    }
    assert(a =~= b);
}

} // verus!
