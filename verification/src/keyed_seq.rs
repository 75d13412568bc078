//! Sequences of records whose keys are distinct, seen as maps from key to
//! record.  Registries keyed by names or composite keys are kept as such
//! sequences.
use vstd::prelude::*;

verus! {

/// Whether some record has key `k`.
pub open spec fn has_key<T, K>(s: Seq<T>, key: spec_fn(T) -> K, k: K) -> bool {
    exists|i: int| 0 <= i < s.len() && #[trigger] key(s[i]) == k
}

/// The position of the record with key `k` (meaningful when there is one).
pub open spec fn key_index<T, K>(s: Seq<T>, key: spec_fn(T) -> K, k: K) -> int {
    choose|i: int| 0 <= i < s.len() && #[trigger] key(s[i]) == k
}

/// No two records share a key.
pub open spec fn distinct_keys<T, K>(s: Seq<T>, key: spec_fn(T) -> K) -> bool {
    forall|i: int, j: int| 0 <= i < s.len() && 0 <= j < s.len() && i != j ==> #[trigger] key(s[i]) != #[trigger] key(s[j])
}

/// The map from each key to its record.
pub open spec fn keyed_view<T, K>(s: Seq<T>, key: spec_fn(T) -> K) -> Map<K, T> {
    Map::new(|k: K| has_key(s, key, k), |k: K| s[key_index(s, key, k)])
}

/// With distinct keys, the record at `i` is the one its key maps to.
pub proof fn lemma_key_index<T, K>(s: Seq<T>, key: spec_fn(T) -> K, i: int)
    requires
        distinct_keys(s, key),
        0 <= i < s.len(),
    ensures
        has_key(s, key, key(s[i])),
        key_index(s, key, key(s[i])) == i,
        keyed_view(s, key).contains_key(key(s[i])),
        keyed_view(s, key)[key(s[i])] == s[i],
{
    let k = key(s[i]);
    assert(has_key(s, key, k));
    let j = key_index(s, key, k);
    if j != i {
        assert(key(s[j]) != key(s[i]));
    }
}

/// Replacing the record at `i` by one with the same key updates the view.
pub proof fn lemma_keyed_update<T, K>(s: Seq<T>, key: spec_fn(T) -> K, i: int, x: T)
    requires
        distinct_keys(s, key),
        0 <= i < s.len(),
        key(s[i]) == key(x),
    ensures
        distinct_keys(s.update(i, x), key),
        keyed_view(s.update(i, x), key) == keyed_view(s, key).insert(key(x), x),
{
    let s2 = s.update(i, x);
    assert forall|a: int, b: int| 0 <= a < s2.len() && 0 <= b < s2.len() && a != b
        implies #[trigger] key(s2[a]) != #[trigger] key(s2[b]) by {
        assert(key(s[a]) != key(s[b]));
    }
    assert forall|k: K| #[trigger] has_key(s2, key, k) == (has_key(s, key, k) || k == key(x)) by {
        if has_key(s, key, k) {
            let j = key_index(s, key, k);
            assert(key(s2[j]) == k);
        }
        if has_key(s2, key, k) {
            let j = key_index(s2, key, k);
            assert(key(s[j]) == k);
        }
        if k == key(x) {
            assert(key(s2[i]) == k);
        }
    }
    assert forall|k: K| has_key(s2, key, k) implies
        (#[trigger] keyed_view(s2, key)[k]) == keyed_view(s, key).insert(key(x), x)[k] by {
        let j = key_index(s2, key, k);
        lemma_key_index(s2, key, j);
        if k != key(x) {
            lemma_key_index(s, key, j);
        }
    }
    assert(keyed_view(s2, key) =~= keyed_view(s, key).insert(key(x), x));
}

/// Appending a record with a new key adds it to the view.
pub proof fn lemma_keyed_push<T, K>(s: Seq<T>, key: spec_fn(T) -> K, x: T)
    requires
        distinct_keys(s, key),
        !has_key(s, key, key(x)),
    ensures
        distinct_keys(s.push(x), key),
        keyed_view(s.push(x), key) == keyed_view(s, key).insert(key(x), x),
{
    let s2 = s.push(x);
    let n = s.len() as int;
    assert forall|a: int, b: int| 0 <= a < s2.len() && 0 <= b < s2.len() && a != b
        implies #[trigger] key(s2[a]) != #[trigger] key(s2[b]) by {
        if a < n && b < n {
            assert(key(s[a]) != key(s[b]));
        } else if a < n {
            assert(key(s[a]) == key(s2[a]));
        } else {
            assert(key(s[b]) == key(s2[b]));
        }
    }
    assert forall|k: K| #[trigger] has_key(s2, key, k) == (has_key(s, key, k) || k == key(x)) by {
        if has_key(s, key, k) {
            let j = key_index(s, key, k);
            assert(key(s2[j]) == k);
        }
        if has_key(s2, key, k) {
            let j = key_index(s2, key, k);
            if j < n { assert(key(s[j]) == k); }
        }
        if k == key(x) {
            assert(key(s2[n]) == k);
        }
    }
    assert forall|k: K| has_key(s2, key, k) implies
        (#[trigger] keyed_view(s2, key)[k]) == keyed_view(s, key).insert(key(x), x)[k] by {
        let j = key_index(s2, key, k);
        lemma_key_index(s2, key, j);
        if k != key(x) {
            lemma_key_index(s, key, j);
            assert(s[j] == s2[j]);
        }
    }
    assert(keyed_view(s2, key) =~= keyed_view(s, key).insert(key(x), x));
}

} // verus!
