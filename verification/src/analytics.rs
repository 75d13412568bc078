//! Content analytics: views, purchases and revenue per content token, and
//! named bridge statistics.
use vstd::prelude::*;
use crate::key_order::{bytes_less, inserted_in_order, lemma_lex_order, lemma_sorted_insert, lemma_sorted_update, lex_lt, lex_order, sorted_by};
use crate::keyed_seq::{distinct_keys, has_key, key_index, keyed_view, lemma_key_index, lemma_keyed_update};
use crate::types::{bytes_equal, copy_bytes, AccountId};

verus! {

/// The analytics tables.
#[derive(Copy, Clone, Debug, PartialEq, Eq, Structural)]
pub enum DataKey {
    Views,
    Purchases,
    Revenue,
    BridgeStats,
}

/// A value stored under a byte-string key.
#[derive(Clone, Debug)]
pub struct Entry<V> {
    pub key: Vec<u8>,
    pub value: V,
}

/// The key of an entry.
pub open spec fn entry_keyer<V>() -> spec_fn(Entry<V>) -> Seq<u8> {
    |e: Entry<V>| e.key@
}

/// A table keyed by byte strings, its entries in increasing key order.
#[derive(Clone)]
pub struct ByteTable<V> {
    pub entries: Vec<Entry<V>>,
}

impl<V: Copy> ByteTable<V> {
    /// One entry per key, in increasing key order.
    pub open spec fn wf(&self) -> bool {
        &&& distinct_keys(self.entries@, entry_keyer::<V>())
        &&& sorted_by(self.entries@, entry_keyer::<V>(), lex_order())
    }

    /// Key to value.
    pub open spec fn view(&self) -> Map<Seq<u8>, V> {
        keyed_view(self.entries@, entry_keyer::<V>()).map_values(|e: Entry<V>| e.value)
    }

    /// An empty table.
    pub fn new() -> (t: Self)
        ensures
            t.wf(),
            t@ == Map::<Seq<u8>, V>::empty(),
    {
        let t = ByteTable { entries: Vec::new() };
        assert(t@ =~= Map::<Seq<u8>, V>::empty());
        t
    }

    /// Position of `key`, if stored.
    fn find(&self, key: &Vec<u8>) -> (r: Option<usize>)
        requires
            self.wf(),
        ensures
            match r {
                Some(i) => i < self.entries@.len() && self.entries@[i as int].key@ == key@
                    && self@.contains_key(key@) && self@[key@] == self.entries@[i as int].value,
                None => !self@.contains_key(key@),
            },
    {
        let mut i: usize = 0;
        while i < self.entries.len()
            invariant
                i <= self.entries@.len(),
                self.wf(),
                forall|j: int| 0 <= j < i ==> (#[trigger] self.entries@[j]).key@ != key@,
            decreases self.entries@.len() - i,
        {
            if bytes_equal(&self.entries[i].key, key) {
                proof { lemma_key_index(self.entries@, entry_keyer::<V>(), i as int); }
                return Some(i);
            }
            i = i + 1;
        }
        proof {
            if has_key(self.entries@, entry_keyer::<V>(), key@) {
                let j = key_index(self.entries@, entry_keyer::<V>(), key@);
                assert(self.entries@[j].key@ == key@);
            }
        }
        None
    }

    /// The value under `key`, if any.
    pub fn get(&self, key: &Vec<u8>) -> (r: Option<V>)
        requires
            self.wf(),
        ensures
            r == if self@.contains_key(key@) { Some(self@[key@]) } else { None::<V> },
    {
        match self.find(key) {
            Some(i) => Some(self.entries[i].value),
            None => None,
        }
    }

    /// Store `value` under `key`: a stored key keeps its place, a new key
    /// goes in where the increasing key order puts it.
    pub fn set(&mut self, key: &Vec<u8>, value: V)
        requires
            old(self).wf(),
        ensures
            final(self).wf(),
            final(self)@ == old(self)@.insert(key@, value),
            old(self)@.contains_key(key@) ==> final(self).entries@ == old(self).entries@.update(
                key_index(old(self).entries@, entry_keyer::<V>(), key@), final(self).entries@[key_index(old(self).entries@, entry_keyer::<V>(), key@)]),
            !old(self)@.contains_key(key@) ==> inserted_in_order(old(self).entries@, final(self).entries@, entry_keyer::<V>(), lex_order(),
                Entry { key: final(self).entries@[key_index(final(self).entries@, entry_keyer::<V>(), key@)].key, value }),
    {
        let ghost s0 = self.entries@;
        let ghost kf = entry_keyer::<V>();
        proof { lemma_lex_order(); }
        let mut i: usize = 0;
        let mut before = true;
        while before && i < self.entries.len()
            invariant
                self.entries@ == s0,
                old(self).wf(),
                s0 == old(self).entries@,
                kf == entry_keyer::<V>(),
                i <= s0.len(),
                forall|j: int| 0 <= j < i ==> lex_lt(#[trigger] s0[j].key@, key@),
                !before ==> i < s0.len() && !lex_lt(s0[i as int].key@, key@),
            decreases s0.len() - i + if before { 1int } else { 0int },
        {
            if bytes_less(&self.entries[i].key, key) {
                i = i + 1;
            } else {
                before = false;
            }
        }
        let e = Entry { key: copy_bytes(key), value };
        let ghost x = e;
        if i < self.entries.len() && bytes_equal(&self.entries[i].key, key) {
            self.entries.set(i, e);
            proof {
                lemma_key_index(s0, kf, i as int);
                lemma_keyed_update(s0, kf, i as int, x);
                lemma_sorted_update(s0, kf, lex_order(), i as int, x);
            }
        } else {
            proof {
                assert forall|j: int| i <= j < s0.len() implies lex_lt(key@, #[trigger] s0[j].key@) by {
                    assert(s0[i as int].key@ != key@);
                    if j > i {
                        assert((lex_order())(kf(s0[i as int]), kf(s0[j])));
                    }
                }
                assert(!has_key(s0, kf, key@)) by {
                    if has_key(s0, kf, key@) {
                        let j = key_index(s0, kf, key@);
                        assert(s0[j].key@ == key@);
                    }
                }
                lemma_sorted_insert(s0, kf, lex_order(), i as int, x);
                lemma_key_index(s0.insert(i as int, x), kf, i as int);
            }
            self.entries.insert(i, e);
        }
        assert(self@ =~= old(self)@.insert(key@, value));
    }
}

/// The analytics tables.
#[derive(Clone)]
pub struct Analytics {
    pub views: ByteTable<u64>,
    pub purchases: ByteTable<u64>,
    pub revenue: ByteTable<i128>,
    pub bridge_stats: ByteTable<i128>,
}

/// `m[k]`, or `d` when `k` is absent.
pub open spec fn or_default<V>(m: Map<Seq<u8>, V>, k: Seq<u8>, d: V) -> V {
    if m.contains_key(k) { m[k] } else { d }
}

impl Analytics {
    /// Tables are well formed.
    pub open spec fn wf(&self) -> bool {
        self.views.wf() && self.purchases.wf() && self.revenue.wf() && self.bridge_stats.wf()
    }

    /// Empty tables.
    pub fn new() -> (a: Self)
        ensures
            a.wf(),
            a.views@ == Map::<Seq<u8>, u64>::empty(),
            a.purchases@ == Map::<Seq<u8>, u64>::empty(),
            a.revenue@ == Map::<Seq<u8>, i128>::empty(),
            a.bridge_stats@ == Map::<Seq<u8>, i128>::empty(),
    {
        Analytics { views: ByteTable::new(), purchases: ByteTable::new(), revenue: ByteTable::new(), bridge_stats: ByteTable::new() }
    }

    /// Count a view of `token_id`.
    pub fn record_view(&mut self, token_id: &Vec<u8>)
        requires
            old(self).wf(),
            or_default(old(self).views@, token_id@, 0u64) < u64::MAX,
        ensures
            final(self).wf(),
            final(self).views@ == old(self).views@.insert(token_id@, (or_default(old(self).views@, token_id@, 0u64) + 1) as u64),
            final(self).purchases == old(self).purchases,
            final(self).revenue == old(self).revenue,
            final(self).bridge_stats == old(self).bridge_stats,
    {
        let count = match self.views.get(token_id) {
            Some(c) => c,
            None => 0,
        };
        self.views.set(token_id, count + 1);
    }

    /// Count a purchase of `token_id` by `buyer` for `amount`, adding the
    /// amount to its revenue.
    pub fn record_purchase(&mut self, token_id: &Vec<u8>, buyer: AccountId, amount: i128)
        requires
            old(self).wf(),
            or_default(old(self).purchases@, token_id@, 0u64) < u64::MAX,
            i128::MIN <= or_default(old(self).revenue@, token_id@, 0i128) + amount <= i128::MAX,
        ensures
            final(self).wf(),
            final(self).purchases@ == old(self).purchases@.insert(token_id@, (or_default(old(self).purchases@, token_id@, 0u64) + 1) as u64),
            final(self).revenue@ == old(self).revenue@.insert(token_id@, (or_default(old(self).revenue@, token_id@, 0i128) + amount) as i128),
            final(self).views == old(self).views,
            final(self).bridge_stats == old(self).bridge_stats,
    {
        let count = match self.purchases.get(token_id) {
            Some(c) => c,
            None => 0,
        };
        self.purchases.set(token_id, count + 1);
        let total = match self.revenue.get(token_id) {
            Some(t) => t,
            None => 0,
        };
        self.revenue.set(token_id, total + amount);
    }

    /// Views of `token_id`.
    pub fn get_views(&self, token_id: &Vec<u8>) -> (n: u64)
        requires
            self.wf(),
        ensures
            n == or_default(self.views@, token_id@, 0u64),
    {
        match self.views.get(token_id) {
            Some(c) => c,
            None => 0,
        }
    }

    /// Purchases of `token_id`.
    pub fn get_purchases(&self, token_id: &Vec<u8>) -> (n: u64)
        requires
            self.wf(),
        ensures
            n == or_default(self.purchases@, token_id@, 0u64),
    {
        match self.purchases.get(token_id) {
            Some(c) => c,
            None => 0,
        }
    }

    /// Revenue of `token_id`.
    pub fn get_revenue(&self, token_id: &Vec<u8>) -> (n: i128)
        requires
            self.wf(),
        ensures
            n == or_default(self.revenue@, token_id@, 0i128),
    {
        match self.revenue.get(token_id) {
            Some(c) => c,
            None => 0,
        }
    }

    /// Store the bridge statistic `key`.
    pub fn set_bridge_stat(&mut self, key: &Vec<u8>, value: i128)
        requires
            old(self).wf(),
        ensures
            final(self).wf(),
            final(self).bridge_stats@ == old(self).bridge_stats@.insert(key@, value),
            !old(self).bridge_stats@.contains_key(key@) ==> inserted_in_order(old(self).bridge_stats.entries@,
                final(self).bridge_stats.entries@, entry_keyer::<i128>(), lex_order(),
                Entry { key: final(self).bridge_stats.entries@[key_index(final(self).bridge_stats.entries@, entry_keyer::<i128>(), key@)].key, value }),
            old(self).bridge_stats@.contains_key(key@) ==> final(self).bridge_stats.entries@ == old(self).bridge_stats.entries@.update(
                key_index(old(self).bridge_stats.entries@, entry_keyer::<i128>(), key@),
                final(self).bridge_stats.entries@[key_index(old(self).bridge_stats.entries@, entry_keyer::<i128>(), key@)]),
            final(self).views == old(self).views,
            final(self).purchases == old(self).purchases,
            final(self).revenue == old(self).revenue,
    {
        self.bridge_stats.set(key, value);
    }

    /// Every bridge statistic, in increasing key order.
    pub fn get_bridge_statistics(&self) -> (t: &ByteTable<i128>)
        requires
            self.wf(),
        ensures
            *t == self.bridge_stats,
            t.wf(),
    {
        &self.bridge_stats
    }
}

} // verus!
