//! An ordered map from integer ids to values.
//!
//! Contract storage keeps its tables as maps ordered by key; walking such a
//! table visits the keys in increasing order.  `IdMap` is the in-memory form
//! of one table: a vector of `(key, value)` entries whose keys strictly
//! increase.  Its view is the mathematical map from each key to its value,
//! and `entries()` exposes the ordered sequence for functions that walk it.
use vstd::prelude::*;

verus! {

/// Keys strictly increase along the entry sequence.
pub open spec fn keys_increasing<V>(s: Seq<(u64, V)>) -> bool {
    forall|i: int, j: int| 0 <= i < j < s.len() ==> #[trigger] s[i].0 < #[trigger] s[j].0
}

/// Whether some entry carries key `k`.
pub open spec fn seq_has_key<V>(s: Seq<(u64, V)>, k: u64) -> bool {
    exists|i: int| 0 <= i < s.len() && #[trigger] s[i].0 == k
}

/// The position of the entry with key `k` (meaningful when the key occurs).
pub open spec fn seq_index_of<V>(s: Seq<(u64, V)>, k: u64) -> int {
    choose|i: int| 0 <= i < s.len() && #[trigger] s[i].0 == k
}

/// The map that an ordered entry sequence denotes.
pub open spec fn seq_to_map<V>(s: Seq<(u64, V)>) -> Map<u64, V> {
    Map::new(|k: u64| seq_has_key(s, k), |k: u64| s[seq_index_of(s, k)].1)
}

/// In an increasing sequence the entry with a given key is unique.
pub proof fn lemma_index_of_unique<V>(s: Seq<(u64, V)>, i: int)
    requires
        keys_increasing(s),
        0 <= i < s.len(),
    ensures
        seq_has_key(s, s[i].0),
        seq_index_of(s, s[i].0) == i,
        seq_to_map(s).contains_key(s[i].0),
        seq_to_map(s)[s[i].0] == s[i].1,
{
    let k = s[i].0;
    assert(seq_has_key(s, k));
    let j = seq_index_of(s, k);
    if j < i {
        assert(s[j].0 < s[i].0);
    } else if j > i {
        assert(s[i].0 < s[j].0);
    }
}

/// The keys, in order, of the entries whose value satisfies `p`.
pub open spec fn keys_where<V>(s: Seq<(u64, V)>, p: spec_fn(V) -> bool) -> Seq<u64>
    decreases s.len(),
{
    if s.len() == 0 {
        Seq::empty()
    } else {
        let rest = keys_where(s.drop_last(), p);
        if p(s.last().1) { rest.push(s.last().0) } else { rest }
    }
}

/// The number of entries whose value satisfies `p`.
pub open spec fn count_where<V>(s: Seq<(u64, V)>, p: spec_fn(V) -> bool) -> nat
    decreases s.len(),
{
    if s.len() == 0 {
        0
    } else {
        count_where(s.drop_last(), p) + if p(s.last().1) { 1nat } else { 0nat }
    }
}

/// One more entry of a prefix, for `keys_where`.
pub proof fn lemma_keys_where_step<V>(s: Seq<(u64, V)>, i: int, p: spec_fn(V) -> bool)
    requires
        0 <= i < s.len(),
    ensures
        keys_where(s.take(i + 1), p) == if p(s[i].1) {
            keys_where(s.take(i), p).push(s[i].0)
        } else {
            keys_where(s.take(i), p)
        },
{
    assert(s.take(i + 1).drop_last() =~= s.take(i));
    assert(s.take(i + 1).last() == s[i]);
}

/// One more entry of a prefix, for `count_where`.
pub proof fn lemma_count_where_step<V>(s: Seq<(u64, V)>, i: int, p: spec_fn(V) -> bool)
    requires
        0 <= i < s.len(),
    ensures
        count_where(s.take(i + 1), p) == count_where(s.take(i), p) + if p(s[i].1) { 1nat } else { 0nat },
{
    assert(s.take(i + 1).drop_last() =~= s.take(i));
    assert(s.take(i + 1).last() == s[i]);
}

/// A key is listed by `keys_where` exactly when some entry carries it with a
/// value satisfying `p`.
pub proof fn lemma_keys_where_seq<V>(s: Seq<(u64, V)>, p: spec_fn(V) -> bool)
    ensures
        forall|k: u64| #[trigger] keys_where(s, p).contains(k)
            <==> exists|i: int| 0 <= i < s.len() && #[trigger] s[i].0 == k && p(s[i].1),
    decreases s.len(),
{
    broadcast use vstd::seq_lib::group_seq_properties;
    if s.len() > 0 {
        let t = s.drop_last();
        lemma_keys_where_seq(t, p);
        assert forall|k: u64| #[trigger] keys_where(s, p).contains(k)
            <==> exists|i: int| 0 <= i < s.len() && #[trigger] s[i].0 == k && p(s[i].1) by {
            if keys_where(s, p).contains(k) {
                if keys_where(t, p).contains(k) {
                    let i = choose|i: int| 0 <= i < t.len() && #[trigger] t[i].0 == k && p(t[i].1);
                    assert(s[i] == t[i]);
                } else {
                    let i = s.len() - 1;
                    assert(s[i].0 == k && p(s[i].1));
                }
            }
            if exists|i: int| 0 <= i < s.len() && #[trigger] s[i].0 == k && p(s[i].1) {
                let i = choose|i: int| 0 <= i < s.len() && #[trigger] s[i].0 == k && p(s[i].1);
                if i < s.len() - 1 {
                    assert(t[i] == s[i]);
                    assert(keys_where(t, p).contains(k));
                } else {
                    assert(keys_where(s, p).last() == k);
                }
            }
        }
    }
}

/// For a well-formed table, the keys `keys_where` lists are exactly the keys
/// whose values satisfy `p`.
pub proof fn lemma_keys_where_members<V>(m: IdMap<V>, p: spec_fn(V) -> bool)
    requires
        m.wf(),
    ensures
        forall|i: int| 0 <= i < keys_where(m.entries(), p).len()
            ==> #[trigger] m@.contains_key(keys_where(m.entries(), p)[i]),
        forall|k: u64| #[trigger] m@.contains_key(k) && p(m@[k]) <==> keys_where(m.entries(), p).contains(k),
{
    let s = m.entries();
    let kw = keys_where(s, p);
    lemma_keys_where_seq(s, p);
    assert forall|k: u64| #[trigger] m@.contains_key(k) && p(m@[k]) <==> kw.contains(k) by {
        if kw.contains(k) {
            let i = choose|i: int| 0 <= i < s.len() && #[trigger] s[i].0 == k && p(s[i].1);
            lemma_index_of_unique(s, i);
        }
        if m@.contains_key(k) && p(m@[k]) {
            let i = seq_index_of(s, k);
            lemma_index_of_unique(s, i);
            assert(s[i].0 == k && p(s[i].1));
        }
    }
    assert forall|i: int| 0 <= i < kw.len() implies #[trigger] m@.contains_key(kw[i]) by {
        assert(kw.contains(kw[i]));
    }
}

/// The number of entries of a well-formed table is the size of its domain.
pub proof fn lemma_entries_len<V>(m: IdMap<V>)
    requires
        m.wf(),
    ensures
        m@.dom().finite(),
        m.entries().len() == m@.dom().len(),
{
    let s = m.entries();
    let keys = s.map_values(|e: (u64, V)| e.0);
    assert(keys.no_duplicates()) by {
        assert forall|i: int, j: int| 0 <= i < keys.len() && 0 <= j < keys.len() && i != j implies keys[i] != keys[j] by {
            if i < j { assert(s[i].0 < s[j].0); } else { assert(s[j].0 < s[i].0); }
        }
    }
    assert forall|k: u64| #[trigger] m@.dom().contains(k) == keys.to_set().contains(k) by {
        if m@.dom().contains(k) {
            let i = seq_index_of(s, k);
            assert(keys[i] == k);
        }
        if keys.to_set().contains(k) {
            let i = choose|i: int| 0 <= i < keys.len() && keys[i] == k;
            assert(s[i].0 == k);
        }
    }
    assert(m@.dom() =~= keys.to_set());
    vstd::seq_lib::seq_to_set_is_finite(keys);
    keys.unique_seq_to_set();
}

/// An ordered table from `u64` ids to values.
#[derive(Clone)]
pub struct IdMap<V> {
    entries: Vec<(u64, V)>,
}

impl<V> IdMap<V> {
    /// The entries in increasing key order.
    pub closed spec fn entries(&self) -> Seq<(u64, V)> {
        self.entries@
    }

    /// Well-formedness: keys strictly increase.
    pub open spec fn wf(&self) -> bool {
        keys_increasing(self.entries())
    }

    /// The map from keys to values.
    pub open spec fn view(&self) -> Map<u64, V> {
        seq_to_map(self.entries())
    }

    /// An empty table.
    pub fn new() -> (m: Self)
        ensures
            m.wf(),
            m@ == Map::<u64, V>::empty(),
            m.entries() == Seq::<(u64, V)>::empty(),
    {
        let m = IdMap { entries: Vec::new() };
        assert(m@ =~= Map::<u64, V>::empty());
        m
    }

    /// Number of entries.
    pub fn len(&self) -> (n: usize)
        ensures
            n == self.entries().len(),
    {
        self.entries.len()
    }

    /// The key of the `i`-th entry in key order.
    pub fn key_at(&self, i: usize) -> (k: u64)
        requires
            i < self.entries().len(),
        ensures
            k == self.entries()[i as int].0,
    {
        self.entries[i].0
    }

    /// The value of the `i`-th entry in key order.
    pub fn value_at(&self, i: usize) -> (v: &V)
        requires
            i < self.entries().len(),
        ensures
            *v == self.entries()[i as int].1,
    {
        &self.entries[i].1
    }

    /// Replace the value of the `i`-th entry, keeping its key.
    pub fn set_value_at(&mut self, i: usize, v: V)
        requires
            old(self).wf(),
            i < old(self).entries().len(),
        ensures
            final(self).wf(),
            final(self).entries() == old(self).entries().update(i as int, (old(self).entries()[i as int].0, v)),
    {
        let k = self.entries[i].0;
        self.entries.set(i, (k, v));
    }

    /// Put `v` in place of the value of the `i`-th entry, handing back the
    /// value it held; the key stays.
    pub fn replace_value_at(&mut self, i: usize, v: V) -> (prev: V)
        requires
            old(self).wf(),
            i < old(self).entries().len(),
        ensures
            final(self).wf(),
            prev == old(self).entries()[i as int].1,
            final(self).entries() == old(self).entries().update(i as int, (old(self).entries()[i as int].0, v)),
    {
        let k = self.entries[i].0;
        let mut e = (k, v);
        std::mem::swap(&mut e, &mut self.entries[i]);
        e.1
    }

    /// Position of `k`, if present.
    fn find(&self, k: u64) -> (r: Option<usize>)
        requires
            self.wf(),
        ensures
            match r {
                Some(i) => i < self.entries().len() && self.entries()[i as int].0 == k,
                None => !seq_has_key(self.entries(), k),
            },
    {
        let mut i: usize = 0;
        while i < self.entries.len()
            invariant
                i <= self.entries@.len(),
                forall|j: int| 0 <= j < i ==> #[trigger] self.entries@[j].0 != k,
            decreases self.entries@.len() - i,
        {
            if self.entries[i].0 == k {
                return Some(i);
            }
            i = i + 1;
        }
        None
    }

    /// Whether `k` has an entry.
    pub fn contains_key(&self, k: u64) -> (b: bool)
        requires
            self.wf(),
        ensures
            b == self@.contains_key(k),
    {
        match self.find(k) {
            Some(i) => {
                proof { lemma_index_of_unique(self.entries(), i as int); }
                true
            },
            None => false,
        }
    }

    /// The value stored under `k`, if any.
    pub fn get(&self, k: u64) -> (r: Option<&V>)
        requires
            self.wf(),
        ensures
            match r {
                Some(v) => self@.contains_key(k) && *v == self@[k],
                None => !self@.contains_key(k),
            },
    {
        match self.find(k) {
            Some(i) => {
                proof { lemma_index_of_unique(self.entries(), i as int); }
                Some(&self.entries[i].1)
            },
            None => None,
        }
    }

    /// Store `v` under `k`, replacing any earlier value.
    pub fn insert(&mut self, k: u64, v: V)
        requires
            old(self).wf(),
        ensures
            final(self).wf(),
            final(self)@ == old(self)@.insert(k, v),
            (forall|j: int| 0 <= j < old(self).entries().len() ==> #[trigger] old(self).entries()[j].0 < k)
                ==> final(self).entries() == old(self).entries().push((k, v)),
    {
        let ghost old_s = self.entries@;
        let mut i: usize = 0;
        while i < self.entries.len() && self.entries[i].0 < k
            invariant
                i <= self.entries@.len(),
                self.entries@ == old_s,
                keys_increasing(old_s),
                forall|j: int| 0 <= j < i ==> #[trigger] old_s[j].0 < k,
            decreases self.entries@.len() - i,
        {
            i = i + 1;
        }
        if i < self.entries.len() && self.entries[i].0 == k {
            self.entries.set(i, (k, v));
            let ghost s = self.entries@;
            assert(s == old_s.update(i as int, (k, v)));
            assert(old_s[i as int].0 == k);
            assert(keys_increasing(s)) by {
                assert forall|a: int, b: int| 0 <= a < b < s.len() implies #[trigger] s[a].0 < #[trigger] s[b].0 by {
                    assert(old_s[a].0 < old_s[b].0);
                }
            }
            assert forall|key: u64| #[trigger] self@.contains_key(key) == old(self)@.insert(k, v).contains_key(key) by {
                assert(s[i as int].0 == k);
                if seq_has_key(old_s, key) {
                    let j = seq_index_of(old_s, key);
                    assert(s[j].0 == key);
                }
                if seq_has_key(s, key) {
                    let j = seq_index_of(s, key);
                    if j != i { assert(old_s[j].0 == key); }
                }
            }
            assert forall|key: u64| #[trigger] self@.contains_key(key) implies self@[key] == old(self)@.insert(k, v)[key] by {
                let j = seq_index_of(s, key);
                lemma_index_of_unique(s, j);
                if j != i {
                    lemma_index_of_unique(old_s, j);
                }
            }
            assert(self@ =~= old(self)@.insert(k, v));
        } else {
            self.entries.insert(i, (k, v));
            let ghost s = self.entries@;
            assert(s == old_s.insert(i as int, (k, v)));
            proof {
                if i as int == old_s.len() {
                    assert(s =~= old_s.push((k, v)));
                }
            }
            assert(keys_increasing(s)) by {
                assert forall|a: int, b: int| 0 <= a < b < s.len() implies #[trigger] s[a].0 < #[trigger] s[b].0 by {
                    if b < i {
                        assert(old_s[a].0 < old_s[b].0);
                    } else if b == i {
                        assert(old_s[a].0 < k);
                    } else if a < i {
                        assert(old_s[a].0 < k);
                        assert(old_s[i as int].0 > k);
                        if b - 1 > i { assert(old_s[i as int].0 < old_s[b - 1].0); }
                    } else if a == i {
                        assert(old_s[i as int].0 > k);
                        if b - 1 > i { assert(old_s[i as int].0 < old_s[b - 1].0); }
                    } else {
                        assert(old_s[a - 1].0 < old_s[b - 1].0);
                    }
                }
            }
            assert forall|key: u64| #[trigger] self@.contains_key(key) == old(self)@.insert(k, v).contains_key(key) by {
                assert(s[i as int].0 == k);
                if seq_has_key(old_s, key) {
                    let j = seq_index_of(old_s, key);
                    if j < i { assert(s[j].0 == key); } else { assert(s[j + 1].0 == key); }
                }
                if seq_has_key(s, key) {
                    let j = seq_index_of(s, key);
                    if j < i { assert(old_s[j].0 == key); }
                    else if j > i { assert(old_s[j - 1].0 == key); }
                }
            }
            assert forall|key: u64| #[trigger] self@.contains_key(key) implies self@[key] == old(self)@.insert(k, v)[key] by {
                let j = seq_index_of(s, key);
                lemma_index_of_unique(s, j);
                if j < i {
                    lemma_index_of_unique(old_s, j);
                } else if j > i {
                    lemma_index_of_unique(old_s, j - 1);
                }
            }
            assert(self@ =~= old(self)@.insert(k, v));
        }
    }

    /// Remove the entry for `k`, handing back its value.
    pub fn remove(&mut self, k: u64) -> (r: Option<V>)
        requires
            old(self).wf(),
        ensures
            final(self).wf(),
            final(self)@ == old(self)@.remove(k),
            match r {
                Some(v) => old(self)@.contains_key(k) && v == old(self)@[k],
                None => !old(self)@.contains_key(k),
            },
    {
        let ghost old_s = self.entries@;
        match self.find(k) {
            None => {
                assert(self@ =~= old(self)@.remove(k));
                None
            },
            Some(i) => {
                proof { lemma_index_of_unique(old_s, i as int); }
                let (_, v) = self.entries.remove(i);
                let ghost s = self.entries@;
                assert(s == old_s.remove(i as int));
                assert(keys_increasing(s)) by {
                    assert forall|a: int, b: int| 0 <= a < b < s.len() implies #[trigger] s[a].0 < #[trigger] s[b].0 by {
                        if b < i {
                            assert(old_s[a].0 < old_s[b].0);
                        } else if a < i {
                            assert(old_s[a].0 < old_s[b + 1].0);
                        } else {
                            assert(old_s[a + 1].0 < old_s[b + 1].0);
                        }
                    }
                }
                assert forall|key: u64| #[trigger] self@.contains_key(key) == old(self)@.remove(k).contains_key(key) by {
                    if seq_has_key(old_s, key) && key != k {
                        let j = seq_index_of(old_s, key);
                        if j < i { assert(s[j].0 == key); } else { assert(s[j - 1].0 == key); }
                    }
                    if seq_has_key(s, key) {
                        let j = seq_index_of(s, key);
                        lemma_index_of_unique(s, j);
                        if j < i {
                            assert(old_s[j].0 == key);
                            assert(old_s[j].0 < old_s[i as int].0);
                        } else {
                            assert(old_s[j + 1].0 == key);
                            assert(old_s[i as int].0 < old_s[j + 1].0);
                        }
                    }
                }
                assert forall|key: u64| #[trigger] self@.contains_key(key) implies self@[key] == old(self)@.remove(k)[key] by {
                    let j = seq_index_of(s, key);
                    lemma_index_of_unique(s, j);
                    if j < i {
                        lemma_index_of_unique(old_s, j);
                    } else {
                        lemma_index_of_unique(old_s, j + 1);
                    }
                }
                assert(self@ =~= old(self)@.remove(k));
                Some(v)
            },
        }
    }
}

impl<V: Copy> IdMap<V> {
    /// A copy of the table, entry for entry.
    pub fn copied(&self) -> (m: Self)
        ensures
            m.entries() == self.entries(),
    {
        let mut entries: Vec<(u64, V)> = Vec::new();
        let mut i: usize = 0;
        while i < self.entries.len()
            invariant
                i <= self.entries@.len(),
                entries@ == self.entries@.take(i as int),
            decreases self.entries@.len() - i,
        {
            entries.push(self.entries[i]);
            assert(self.entries@.take(i as int + 1) =~= self.entries@.take(i as int).push(self.entries@[i as int]));
            i = i + 1;
        }
        assert(self.entries@.take(i as int) =~= self.entries@);
        IdMap { entries }
    }
}

} // verus!
