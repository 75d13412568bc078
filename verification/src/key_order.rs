//! The order in which contract maps keep their keys.
//!
//! Contract storage maps walk their keys in increasing order.  Byte-string
//! and symbol keys compare byte by byte, a proper prefix coming first;
//! integer keys compare as numbers.  Registries kept as sequences stay
//! sorted by key in this order, so walking them gives what walking the
//! contract's map gives.
use vstd::prelude::*;
use crate::keyed_seq::{distinct_keys, has_key, key_index, keyed_view, lemma_key_index};

verus! {

/// `a` comes before `b` when compared from position `i` on.
pub open spec fn lex_from(a: Seq<u8>, b: Seq<u8>, i: int) -> bool
    decreases a.len() - i,
{
    if i < 0 || i >= a.len() {
        0 <= i < b.len()
    } else if i >= b.len() {
        false
    } else if a[i] < b[i] {
        true
    } else if a[i] > b[i] {
        false
    } else {
        lex_from(a, b, i + 1)
    }
}

/// `a` comes before `b` byte by byte, a proper prefix coming first.
pub open spec fn lex_lt(a: Seq<u8>, b: Seq<u8>) -> bool {
    lex_from(a, b, 0)
}

/// The byte order is transitive.
pub proof fn lemma_lex_trans(a: Seq<u8>, b: Seq<u8>, c: Seq<u8>, i: int)
    requires
        0 <= i,
        lex_from(a, b, i),
        lex_from(b, c, i),
    ensures
        lex_from(a, c, i),
    decreases a.len() - i,
{
    if i < a.len() && i < b.len() && i < c.len() && a[i] == b[i] && b[i] == c[i] {
        lemma_lex_trans(a, b, c, i + 1);
    }
}

/// No key comes before itself.
pub proof fn lemma_lex_irrefl(a: Seq<u8>, i: int)
    requires
        0 <= i,
    ensures
        !lex_from(a, a, i),
    decreases a.len() - i,
{
    if i < a.len() {
        lemma_lex_irrefl(a, i + 1);
    }
}

/// Of two keys that agree before `i`, one comes first or they are equal.
pub proof fn lemma_lex_total(a: Seq<u8>, b: Seq<u8>, i: int)
    requires
        0 <= i <= a.len(),
        i <= b.len(),
        forall|j: int| 0 <= j < i ==> a[j] == b[j],
    ensures
        lex_from(a, b, i) || lex_from(b, a, i) || a == b,
    decreases a.len() - i,
{
    if i == a.len() && i == b.len() {
        assert(a =~= b);
    } else if i < a.len() && i < b.len() && a[i] == b[i] {
        lemma_lex_total(a, b, i + 1);
    }
}

/// The byte order is a strict total order.
pub proof fn lemma_lex_order()
    ensures
        forall|a: Seq<u8>, b: Seq<u8>, c: Seq<u8>| #[trigger] lex_lt(a, b) && #[trigger] lex_lt(b, c) ==> lex_lt(a, c),
        forall|a: Seq<u8>| !#[trigger] lex_lt(a, a),
        forall|a: Seq<u8>, b: Seq<u8>| #[trigger] lex_lt(a, b) || lex_lt(b, a) || a == b,
{
    assert forall|a: Seq<u8>, b: Seq<u8>, c: Seq<u8>| #[trigger] lex_lt(a, b) && #[trigger] lex_lt(b, c) implies lex_lt(a, c) by {
        lemma_lex_trans(a, b, c, 0);
    }
    assert forall|a: Seq<u8>| !#[trigger] lex_lt(a, a) by {
        lemma_lex_irrefl(a, 0);
    }
    assert forall|a: Seq<u8>, b: Seq<u8>| #[trigger] lex_lt(a, b) || lex_lt(b, a) || a == b by {
        lemma_lex_total(a, b, 0);
    }
}

/// Whether `a` comes before `b` byte by byte.
pub fn bytes_less(a: &Vec<u8>, b: &Vec<u8>) -> (r: bool)
    ensures
        r == lex_lt(a@, b@),
{
    let mut i: usize = 0;
    while i < a.len() && i < b.len()
        invariant
            i <= a@.len(),
            i <= b@.len(),
            lex_lt(a@, b@) == lex_from(a@, b@, i as int),
        decreases a@.len() - i,
    {
        if a[i] < b[i] {
            return true;
        }
        if a[i] > b[i] {
            return false;
        }
        i = i + 1;
    }
    i >= a.len() && i < b.len()
}

/// Keys increase along the sequence in the order `lt`.
pub open spec fn sorted_by<T, K>(s: Seq<T>, key: spec_fn(T) -> K, lt: spec_fn(K, K) -> bool) -> bool {
    forall|i: int, j: int| 0 <= i < j < s.len() ==> lt(#[trigger] key(s[i]), #[trigger] key(s[j]))
}

/// `t` is `s` with `x` put in at position `p`, where every key before it is
/// smaller and every key from `p` on is larger than `x`'s.
pub open spec fn inserted_in_order<T, K>(s: Seq<T>, t: Seq<T>, key: spec_fn(T) -> K, lt: spec_fn(K, K) -> bool, x: T) -> bool {
    exists|p: int| {
        &&& 0 <= p <= s.len()
        &&& t == s.insert(p, x)
        &&& forall|j: int| 0 <= j < p ==> lt(#[trigger] key(s[j]), key(x))
        &&& forall|j: int| p <= j < s.len() ==> lt(key(x), #[trigger] key(s[j]))
    }
}

/// Putting a record with a new key in at a position that keeps the order
/// keeps the keys distinct and sorted, and adds the record to the view.
pub proof fn lemma_sorted_insert<T, K>(s: Seq<T>, key: spec_fn(T) -> K, lt: spec_fn(K, K) -> bool, p: int, x: T)
    requires
        distinct_keys(s, key),
        sorted_by(s, key, lt),
        !has_key(s, key, key(x)),
        0 <= p <= s.len(),
        forall|j: int| 0 <= j < p ==> lt(#[trigger] key(s[j]), key(x)),
        forall|j: int| p <= j < s.len() ==> lt(key(x), #[trigger] key(s[j])),
    ensures
        distinct_keys(s.insert(p, x), key),
        sorted_by(s.insert(p, x), key, lt),
        keyed_view(s.insert(p, x), key) == keyed_view(s, key).insert(key(x), x),
        inserted_in_order(s, s.insert(p, x), key, lt, x),
{
    let t = s.insert(p, x);
    assert forall|a: int, b: int| 0 <= a < t.len() && 0 <= b < t.len() && a != b
        implies #[trigger] key(t[a]) != #[trigger] key(t[b]) by {
        let ia = if a < p { a } else { a - 1 };
        let ib = if b < p { b } else { b - 1 };
        if a == p {
            assert(key(s[ib]) != key(x));
        } else if b == p {
            assert(key(s[ia]) != key(x));
        } else {
            assert(key(s[ia]) != key(s[ib]));
        }
    }
    assert forall|a: int, b: int| 0 <= a < b < t.len() implies lt(#[trigger] key(t[a]), #[trigger] key(t[b])) by {
        if a == p {
            assert(t[b] == s[b - 1]);
        } else if b == p {
            assert(t[a] == s[a]);
        } else if b < p {
            assert(lt(key(s[a]), key(s[b])));
        } else if a < p {
            assert(lt(key(s[a]), key(s[b - 1])));
        } else {
            assert(lt(key(s[a - 1]), key(s[b - 1])));
        }
    }
    assert forall|k: K| #[trigger] has_key(t, key, k) == (has_key(s, key, k) || k == key(x)) by {
        if has_key(s, key, k) {
            let j = key_index(s, key, k);
            if j < p { assert(key(t[j]) == k); } else { assert(key(t[j + 1]) == k); }
        }
        if has_key(t, key, k) {
            let j = key_index(t, key, k);
            if j < p { assert(key(s[j]) == k); } else if j > p { assert(key(s[j - 1]) == k); }
        }
        if k == key(x) {
            assert(key(t[p]) == k);
        }
    }
    assert forall|k: K| has_key(t, key, k) implies
        (#[trigger] keyed_view(t, key)[k]) == keyed_view(s, key).insert(key(x), x)[k] by {
        let j = key_index(t, key, k);
        lemma_key_index(t, key, j);
        if j < p {
            lemma_key_index(s, key, j);
        } else if j > p {
            lemma_key_index(s, key, j - 1);
        }
    }
    assert(keyed_view(t, key) =~= keyed_view(s, key).insert(key(x), x));
    assert(inserted_in_order(s, t, key, lt, x)) by {
        assert(t == s.insert(p, x));
    }
}

/// The byte order as a function value.
pub open spec fn lex_order() -> spec_fn(Seq<u8>, Seq<u8>) -> bool {
    |a: Seq<u8>, b: Seq<u8>| lex_lt(a, b)
}

/// The numeric order of `u128` keys as a function value.
pub open spec fn u128_order() -> spec_fn(u128, u128) -> bool {
    |a: u128, b: u128| a < b
}

/// Replacing a record by one with the same key keeps the order.
pub proof fn lemma_sorted_update<T, K>(s: Seq<T>, key: spec_fn(T) -> K, lt: spec_fn(K, K) -> bool, i: int, x: T)
    requires
        sorted_by(s, key, lt),
        0 <= i < s.len(),
        key(s[i]) == key(x),
    ensures
        sorted_by(s.update(i, x), key, lt),
{
    let t = s.update(i, x);
    assert forall|a: int, b: int| 0 <= a < b < t.len() implies lt(#[trigger] key(t[a]), #[trigger] key(t[b])) by {
        assert(lt(key(s[a]), key(s[b])));
    }
}

} // verus!
