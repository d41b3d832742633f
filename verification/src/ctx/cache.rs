//! A bounded cache from request paths to responses and their entity tags.
//!
//! Each endpoint owns one cache.  The cache holds at most `capacity` entries
//! and evicts the entry that was written longest ago when a new key arrives
//! at full capacity, so entries that are refreshed regularly are preferred
//! for retention.
//!
//! The cache is modelled as a sequence of `(key, value, tag)` triples in
//! write order, oldest first.  Keys are unique within the model.

use vstd::prelude::*;
use std::sync::Arc;

verus! {

/// One cached response: a shared handle to the parsed value, together with
/// the entity tag the origin server assigned it.
pub struct EndPointCacheEntry<T> {
    pub val: T,
    /// Version of this cached entry: the origin's `ETag` header value.
    pub etag: String,
}

/// Relies on `std::sync::Arc::clone`: the result is a handle to the same
/// allocation, hence carries the same value as the argument.
#[verifier::external_body]
fn share<T>(v: &Arc<T>) -> (r: Arc<T>)
    ensures
        r == *v,
{
    Arc::clone(v)
}

impl<V> EndPointCacheEntry<Arc<V>> {
    /// A second handle to the same entry; the value is shared, not copied.
    pub fn duplicate(&self) -> (r: Self)
        ensures
            r == *self,
    {
        EndPointCacheEntry { val: share(&self.val), etag: self.etag.clone() }
    }
}

/// Does the model hold an entry for `k`?
pub open spec fn model_has_key<V>(m: Seq<(Seq<char>, V, Seq<char>)>, k: Seq<char>) -> bool {
    exists|i: int| 0 <= i < m.len() && (#[trigger] m[i]).0 == k
}

/// The index of the entry for `k`; meaningful only when `model_has_key`.
pub open spec fn model_key_index<V>(m: Seq<(Seq<char>, V, Seq<char>)>, k: Seq<char>) -> int {
    choose|i: int| 0 <= i < m.len() && (#[trigger] m[i]).0 == k
}

/// The cached value for `k`; meaningful only when `model_has_key`.
pub open spec fn model_val<V>(m: Seq<(Seq<char>, V, Seq<char>)>, k: Seq<char>) -> V {
    m[model_key_index(m, k)].1
}

/// The stored entity tag for `k`; meaningful only when `model_has_key`.
pub open spec fn model_etag<V>(m: Seq<(Seq<char>, V, Seq<char>)>, k: Seq<char>) -> Seq<char> {
    m[model_key_index(m, k)].2
}

/// The cached `(value, tag)` pair for `k`, if any.
pub open spec fn model_lookup<V>(m: Seq<(Seq<char>, V, Seq<char>)>, k: Seq<char>) -> Option<
    (V, Seq<char>),
> {
    if model_has_key(m, k) {
        Some((model_val(m, k), model_etag(m, k)))
    } else {
        None
    }
}

/// Well-formedness of a cache model: within capacity, and keys unique.
pub open spec fn model_wf<V>(m: Seq<(Seq<char>, V, Seq<char>)>, cap: nat) -> bool {
    &&& 1 <= cap
    &&& m.len() <= cap
    &&& forall|i: int, j: int|
        0 <= i < j < m.len() ==> (#[trigger] m[i]).0 != (#[trigger] m[j]).0
}

/// The model after storing `(k, v, e)`: an existing entry for `k` is
/// replaced, and at full capacity the oldest other entry is evicted.
/// The stored entry always ends up present, at the most recent position.
pub open spec fn model_insert<V>(
    m: Seq<(Seq<char>, V, Seq<char>)>,
    cap: nat,
    k: Seq<char>,
    v: V,
    e: Seq<char>,
) -> Seq<(Seq<char>, V, Seq<char>)> {
    if model_has_key(m, k) {
        m.remove(model_key_index(m, k)).push((k, v, e))
    } else if m.len() < cap {
        m.push((k, v, e))
    } else {
        m.drop_first().push((k, v, e))
    }
}

/// The model triple that storing `entry` under key `k` contributes.
spec fn entry_triple<V>(k: Seq<char>, entry: EndPointCacheEntry<Arc<V>>) -> (
    Seq<char>,
    V,
    Seq<char>,
) {
    (k, *entry.val, entry.etag@)
}

/// A bounded mapping from request paths to cached entries, with
/// oldest-write-first eviction.
pub struct EndPointCache<V> {
    entries: Vec<(String, EndPointCacheEntry<Arc<V>>)>,
    capacity: usize,
}

impl<V> EndPointCache<V> {
    /// The cache contents as `(key, value, tag)` triples, oldest write first.
    pub closed spec fn model(&self) -> Seq<(Seq<char>, V, Seq<char>)> {
        Seq::new(
            self.entries@.len(),
            |i: int| (self.entries@[i].0@, *self.entries@[i].1.val, self.entries@[i].1.etag@),
        )
    }

    /// The fixed maximum number of entries, chosen at construction.
    pub closed spec fn capacity_spec(&self) -> nat {
        self.capacity as nat
    }

    /// Structural validity: within capacity, keys unique.
    pub open spec fn wf(&self) -> bool {
        model_wf(self.model(), self.capacity_spec())
    }

    /// An empty cache that will hold at most `capacity` entries.
    pub fn new(capacity: usize) -> (r: Self)
        requires
            1 <= capacity,
        ensures
            r.wf(),
            r.model() == Seq::<(Seq<char>, V, Seq<char>)>::empty(),
            r.capacity_spec() == capacity,
    {
        let r = EndPointCache { entries: Vec::new(), capacity };
        proof {
            assert(r.model() =~= Seq::<(Seq<char>, V, Seq<char>)>::empty());
        }
        r
    }

    /// The position of `key` in the backing vector, if present.
    fn find(&self, key: &String) -> (r: Option<usize>)
        requires
            self.wf(),
        ensures
            match r {
                Some(i) => {
                    &&& i < self.model().len()
                    &&& model_has_key(self.model(), key@)
                    &&& model_key_index(self.model(), key@) == i as int
                },
                None => !model_has_key(self.model(), key@),
            },
    {
        let n = self.entries.len();
        let mut i: usize = 0;
        while i < n
            invariant
                self.wf(),
                n == self.entries@.len(),
                i <= n,
                forall|j: int| 0 <= j < i ==> (#[trigger] self.model()[j]).0 != key@,
            decreases n - i,
        {
            if self.entries[i].0 == *key {
                proof {
                    assert((self.model()[i as int]).0 == key@);
                    assert(model_has_key(self.model(), key@));
                    let w = model_key_index(self.model(), key@);
                    assert(0 <= w < self.model().len() && (self.model()[w]).0 == key@);
                    assert(w == i as int);
                }
                return Some(i);
            }
            i += 1;
        }
        proof {
            assert forall|j: int| 0 <= j < self.model().len() implies (#[trigger] self.model()[j]).0
                != key@ by {}
        }
        None
    }

    /// Non-destructive lookup: a shared handle to the entry for `key`, if one
    /// is cached.
    pub fn get(&self, key: &String) -> (r: Option<EndPointCacheEntry<Arc<V>>>)
        requires
            self.wf(),
        ensures
            match r {
                Some(entry) => model_lookup(self.model(), key@) == Some(
                    (*entry.val, entry.etag@),
                ),
                None => model_lookup(self.model(), key@) is None,
            },
    {
        match self.find(key) {
            Some(i) => {
                let entry = self.entries[i].1.duplicate();
                proof {
                    assert(*entry.val == model_val(self.model(), key@));
                    assert(entry.etag@ == model_etag(self.model(), key@));
                }
                Some(entry)
            },
            None => None,
        }
    }

    /// Store `entry` for `key`, replacing a prior entry for the same key and
    /// evicting the oldest other entry when the cache is full.  The new entry
    /// is always present afterwards.
    pub fn insert(&mut self, key: String, entry: EndPointCacheEntry<Arc<V>>)
        requires
            old(self).wf(),
        ensures
            final(self).wf(),
            final(self).capacity_spec() == old(self).capacity_spec(),
            final(self).model() == model_insert(
                old(self).model(),
                old(self).capacity_spec(),
                key@,
                *entry.val,
                entry.etag@,
            ),
    {
        let ghost m0 = self.model();
        let ghost cap = self.capacity_spec();
        let ghost kv = key@;
        let ghost entry0 = entry;
        match self.find(&key) {
            Some(i) => {
                let _ = self.entries.remove(i);
                self.entries.push((key, entry));
                proof {
                    let triple = entry_triple(kv, entry0);
                    assert(self.model() =~= m0.remove(i as int).push(triple));
                    assert(self.model() == model_insert(m0, cap, kv, triple.1, triple.2));
                    lemma_insert_wf(m0, cap, kv, triple.1, triple.2);
                }
            },
            None => {
                if self.entries.len() == self.capacity {
                    let _ = self.entries.remove(0);
                    self.entries.push((key, entry));
                    proof {
                        let triple = entry_triple(kv, entry0);
                        assert(self.model() =~= m0.drop_first().push(triple));
                        assert(self.model() == model_insert(m0, cap, kv, triple.1, triple.2));
                        lemma_insert_wf(m0, cap, kv, triple.1, triple.2);
                    }
                } else {
                    self.entries.push((key, entry));
                    proof {
                        let triple = entry_triple(kv, entry0);
                        assert(self.model() =~= m0.push(triple));
                        assert(self.model() == model_insert(m0, cap, kv, triple.1, triple.2));
                        lemma_insert_wf(m0, cap, kv, triple.1, triple.2);
                    }
                }
            },
        }
    }
}

/// In a model with unique keys, lookup at an element's key finds exactly
/// that element.
proof fn lemma_unique_lookup<V>(m: Seq<(Seq<char>, V, Seq<char>)>, j: int)
    requires
        forall|p: int, q: int| 0 <= p < q < m.len() ==> (#[trigger] m[p]).0 != (#[trigger] m[q]).0,
        0 <= j < m.len(),
    ensures
        model_has_key(m, m[j].0),
        model_key_index(m, m[j].0) == j,
        model_lookup(m, m[j].0) == Some((m[j].1, m[j].2)),
{
    assert(model_has_key(m, m[j].0));
    let w = model_key_index(m, m[j].0);
    assert(0 <= w < m.len() && m[w].0 == m[j].0);
    if w < j {
        assert(m[w].0 != m[j].0);
    } else if w > j {
        assert(m[j].0 != m[w].0);
    }
}

/// A key under which no element stands is not found.
proof fn lemma_absent_lookup<V>(m: Seq<(Seq<char>, V, Seq<char>)>, k: Seq<char>)
    requires
        forall|i: int| 0 <= i < m.len() ==> (#[trigger] m[i]).0 != k,
    ensures
        model_lookup(m, k) is None,
{
}

/// Law: storing an entry never disturbs the other keys, except that at
/// full capacity a new key evicts exactly the oldest entry.  In
/// particular, replacing an existing entry evicts nothing, and the stored
/// key never evicts itself.
pub proof fn lemma_insert_preserves_other_entries<V>(
    m: Seq<(Seq<char>, V, Seq<char>)>,
    cap: nat,
    k: Seq<char>,
    v: V,
    e: Seq<char>,
    k2: Seq<char>,
)
    requires
        model_wf(m, cap),
        k2 != k,
    ensures
        model_has_key(m, k) || m.len() < cap ==> model_lookup(
            model_insert(m, cap, k, v, e),
            k2,
        ) == model_lookup(m, k2),
        !model_has_key(m, k) && m.len() >= cap ==> {
            &&& m[0].0 == k2 ==> model_lookup(model_insert(m, cap, k, v, e), k2) is None
            &&& m[0].0 != k2 ==> model_lookup(model_insert(m, cap, k, v, e), k2) == model_lookup(
                m,
                k2,
            )
        },
{
    lemma_insert_wf(m, cap, k, v, e);
    let m2 = model_insert(m, cap, k, v, e);
    if model_has_key(m, k) {
        let i = model_key_index(m, k);
        assert(0 <= i < m.len() && m[i].0 == k);
        let base = m.remove(i);
        assert(forall|t: int|
            0 <= t < base.len() ==> (#[trigger] base[t]) == (if t < i {
                m[t]
            } else {
                m[t + 1]
            }));
        if model_has_key(m, k2) {
            let j = model_key_index(m, k2);
            assert(0 <= j < m.len() && m[j].0 == k2);
            lemma_unique_lookup(m, j);
            let j2: int = if j < i {
                j
            } else {
                j - 1
            };
            assert(m2[j2] == m[j]);
            lemma_unique_lookup(m2, j2);
        } else {
            assert forall|t: int| 0 <= t < m2.len() implies (#[trigger] m2[t]).0 != k2 by {
                if t < m2.len() - 1 {
                    assert(m2[t] == base[t]);
                } else {
                    assert(m2[t].0 == k);
                }
            }
            lemma_absent_lookup(m2, k2);
        }
    } else if m.len() < cap {
        if model_has_key(m, k2) {
            let j = model_key_index(m, k2);
            lemma_unique_lookup(m, j);
            assert(m2[j] == m[j]);
            lemma_unique_lookup(m2, j);
        } else {
            assert forall|t: int| 0 <= t < m2.len() implies (#[trigger] m2[t]).0 != k2 by {
                if t < m2.len() - 1 {
                    assert(m2[t] == m[t]);
                } else {
                    assert(m2[t].0 == k);
                }
            }
            lemma_absent_lookup(m2, k2);
        }
    } else {
        let base = m.drop_first();
        assert(forall|t: int| 0 <= t < base.len() ==> (#[trigger] base[t]) == m[t + 1]);
        if m[0].0 == k2 {
            assert forall|t: int| 0 <= t < m2.len() implies (#[trigger] m2[t]).0 != k2 by {
                if t < m2.len() - 1 {
                    assert(m2[t] == m[t + 1]);
                    assert(m[0].0 != m[t + 1].0);
                } else {
                    assert(m2[t].0 == k);
                }
            }
            lemma_absent_lookup(m2, k2);
        } else {
            if model_has_key(m, k2) {
                let j = model_key_index(m, k2);
                assert(0 <= j < m.len() && m[j].0 == k2);
                lemma_unique_lookup(m, j);
                assert(j != 0);
                assert(m2[j - 1] == m[j]);
                lemma_unique_lookup(m2, j - 1);
            } else {
                assert forall|t: int| 0 <= t < m2.len() implies (#[trigger] m2[t]).0 != k2 by {
                    if t < m2.len() - 1 {
                        assert(m2[t] == m[t + 1]);
                    } else {
                        assert(m2[t].0 == k);
                    }
                }
                lemma_absent_lookup(m2, k2);
            }
        }
    }
}

/// After storing `(k, v, e)`, the entry found for `k` is exactly `(v, e)`.
pub proof fn lemma_insert_lookup<V>(
    m: Seq<(Seq<char>, V, Seq<char>)>,
    cap: nat,
    k: Seq<char>,
    v: V,
    e: Seq<char>,
)
    requires
        model_wf(m, cap),
    ensures
        model_wf(model_insert(m, cap, k, v, e), cap),
        model_lookup(model_insert(m, cap, k, v, e), k) == Some((v, e)),
{
    lemma_insert_wf(m, cap, k, v, e);
    let m1 = model_insert(m, cap, k, v, e);
    let last = m1.len() - 1;
    assert(m1[last] == (k, v, e));
    assert(model_has_key(m1, k));
    let w = model_key_index(m1, k);
    assert(0 <= w < m1.len() && m1[w].0 == k);
    if w != last {
        assert(m1[w].0 != m1[last].0);
        assert(false);
    }
}

/// Storing an entry preserves well-formedness of the model.
pub proof fn lemma_insert_wf<V>(
    m: Seq<(Seq<char>, V, Seq<char>)>,
    cap: nat,
    k: Seq<char>,
    v: V,
    e: Seq<char>,
)
    requires
        model_wf(m, cap),
    ensures
        model_wf(model_insert(m, cap, k, v, e), cap),
{
    let m1 = model_insert(m, cap, k, v, e);
    if model_has_key(m, k) {
        let i = model_key_index(m, k);
        assert(0 <= i < m.len() && m[i].0 == k);
        let base = m.remove(i);
        assert(base.len() == m.len() - 1);
        assert(forall|j: int|
            0 <= j < base.len() ==> (#[trigger] base[j]) == (if j < i {
                m[j]
            } else {
                m[j + 1]
            }));
        assert(forall|j: int| 0 <= j < base.len() ==> (#[trigger] base[j]).0 != k);
        assert forall|p: int, q: int| 0 <= p < q < m1.len() implies (#[trigger] m1[p]).0 != (
        #[trigger] m1[q]).0 by {
            if q < m1.len() - 1 {
                assert(m1[p] == base[p] && m1[q] == base[q]);
            } else {
                assert(m1[q].0 == k && m1[p] == base[p]);
            }
        }
    } else if m.len() < cap {
        assert forall|p: int, q: int| 0 <= p < q < m1.len() implies (#[trigger] m1[p]).0 != (
        #[trigger] m1[q]).0 by {
            if q == m1.len() - 1 {
                assert(m1[p] == m[p] && m1[q].0 == k);
                assert(!model_has_key(m, k));
                assert(m[p].0 != k);
            }
        }
    } else {
        let base = m.drop_first();
        assert(forall|j: int| 0 <= j < base.len() ==> (#[trigger] base[j]) == m[j + 1]);
        assert forall|p: int, q: int| 0 <= p < q < m1.len() implies (#[trigger] m1[p]).0 != (
        #[trigger] m1[q]).0 by {
            if q == m1.len() - 1 {
                assert(m1[p] == base[p] && base[p] == m[p + 1]);
                assert(!model_has_key(m, k));
                assert(m[p + 1].0 != k);
            } else {
                assert(m1[p] == m[p + 1] && m1[q] == m[q + 1]);
            }
        }
    }
}

} // verus!
