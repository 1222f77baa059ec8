use crate::assoc::{index_of, lemma_index_of};
use crate::error::StoreError;
use crate::model::{Order, OrderView};
use lru::LruCache;
use std::num::NonZeroUsize;
use vstd::prelude::*;

verus! {

/// What a cache holds: identifier and order, the most recently touched first.
pub type Entries = Seq<(Seq<char>, OrderView)>;

/// The largest capacity a cache can be made with. The table behind the cache
/// is allocated when the cache is made, and this keeps its size within what
/// can be asked of the allocator on every supported machine.
pub const MAX_CAPACITY: usize = 16777216;

/// `lru::LruCache`, whose inside is not looked into: what it holds is
/// known by [`lru_entries`] and [`lru_cap`] alone.
#[verifier::external_type_specification]
#[verifier::external_body]
#[verifier::reject_recursive_types(K)]
#[verifier::reject_recursive_types(V)]
#[verifier::reject_recursive_types(S)]
pub struct ExLruCache<K, V, S>(LruCache<K, V, S>);

/// `lru::DefaultHasher`, the hasher of a cache made by `LruCache::new`.
/// Nothing is said of it.
#[verifier::external_type_specification]
#[verifier::external_body]
pub struct ExDefaultHasher(lru::DefaultHasher);

/// The entries of an `lru::LruCache`, from the head of its list to the tail.
pub uninterp spec fn lru_entries(c: LruCache<String, Order>) -> Entries;

/// The capacity an `lru::LruCache` was made with.
pub uninterp spec fn lru_cap(c: LruCache<String, Order>) -> nat;

/// Whether `s` holds an entry for `key`.
pub open spec fn has_key(s: Entries, key: Seq<char>) -> bool {
    index_of(s, key) >= 0
}

/// The order that `s` holds for `key`.
pub open spec fn lookup(s: Entries, key: Seq<char>) -> Option<OrderView> {
    if has_key(s, key) {
        Some(s[index_of(s, key)].1)
    } else {
        None
    }
}

/// The entries after `key` was touched: its entry moves to the front, the
/// others keep their order. Without an entry for `key` nothing changes.
pub open spec fn touch_entries(s: Entries, key: Seq<char>) -> Entries {
    if has_key(s, key) {
        seq![s[index_of(s, key)]] + s.remove(index_of(s, key))
    } else {
        s
    }
}

/// The entries after `key` was put with `value` into a cache of capacity
/// `cap`: the new entry stands at the front; an older entry for `key` is
/// replaced; otherwise, when the cache is full, the last entry leaves.
pub open spec fn put_entries(s: Entries, cap: nat, key: Seq<char>, value: OrderView) -> Entries {
    if has_key(s, key) {
        seq![(key, value)] + s.remove(index_of(s, key))
    } else if s.len() == cap {
        seq![(key, value)] + s.drop_last()
    } else {
        seq![(key, value)] + s
    }
}

/// No identifier occurs twice.
pub open spec fn distinct_keys(s: Entries) -> bool {
    forall|i: int, j: int| 0 <= i < j < s.len() ==> s[i].0 != s[j].0
}

/// What holds of the entries of every cache of capacity `cap`.
pub open spec fn well_formed(s: Entries, cap: nat) -> bool {
    &&& 0 < cap
    &&& s.len() <= cap
    &&& distinct_keys(s)
}

/// `LruCache::new`: an empty cache that remembers the capacity it was given.
#[verifier::external_body]
fn lru_new(cap: usize) -> (c: LruCache<String, Order>)
    requires
        0 < cap <= MAX_CAPACITY,
    ensures
        lru_entries(c) == Seq::<(Seq<char>, OrderView)>::empty(),
        lru_cap(c) == cap,
{
    LruCache::new(NonZeroUsize::new(cap).unwrap())
}

/// `LruCache::len`: the number of entries.
#[verifier::external_body]
fn lru_len(c: &LruCache<String, Order>) -> (n: usize)
    ensures
        n == lru_entries(*c).len(),
{
    c.len()
}

/// `LruCache::get`: on a hit the entry moves to the head of the list and its
/// value is handed out; on a miss nothing changes.
#[verifier::external_body]
fn lru_get<'a>(c: &'a mut LruCache<String, Order>, key: &String) -> (r: Option<&'a Order>)
    ensures
        lru_cap(*final(c)) == lru_cap(*old(c)),
        lru_entries(*final(c)) == touch_entries(lru_entries(*old(c)), key@),
        match r {
            Some(order) => lookup(lru_entries(*old(c)), key@) == Some(order@),
            None => lookup(lru_entries(*old(c)), key@).is_none(),
        },
{
    c.get(key)
}

/// `LruCache::put`: the pair becomes the head of the list; a value that the
/// key had before is replaced and handed back; otherwise, when the cache
/// holds as many entries as its capacity, the entry at the tail is dropped.
#[verifier::external_body]
fn lru_put(c: &mut LruCache<String, Order>, key: String, value: Order) -> (r: Option<Order>)
    ensures
        lru_cap(*final(c)) == lru_cap(*old(c)),
        lru_entries(*final(c)) == put_entries(
            lru_entries(*old(c)),
            lru_cap(*old(c)),
            key@,
            value@,
        ),
        match r {
            Some(order) => lookup(lru_entries(*old(c)), key@) == Some(order@),
            None => lookup(lru_entries(*old(c)), key@).is_none(),
        },
{
    c.put(key, value)
}

/// A bounded mapping from order identifier to order that forgets the entry
/// touched longest ago when it is full.
pub struct OrderCache {
    inner: LruCache<String, Order>,
}

impl OrderCache {
    /// The entries, the most recently touched first.
    pub closed spec fn entries(&self) -> Entries {
        lru_entries(self.inner)
    }

    /// The capacity the cache was made with.
    pub closed spec fn capacity(&self) -> nat {
        lru_cap(self.inner)
    }

    /// The invariant of the cache.
    pub open spec fn wf(&self) -> bool {
        well_formed(self.entries(), self.capacity())
    }

    /// An empty cache for `capacity` orders. A capacity of zero, or one above
    /// [`MAX_CAPACITY`], is a configuration error.
    pub fn new(capacity: usize) -> (r: Result<OrderCache, StoreError>)
        ensures
            match r {
                Ok(cache) => {
                    &&& 0 < capacity <= MAX_CAPACITY
                    &&& cache.wf()
                    &&& cache.capacity() == capacity
                    &&& cache.entries().len() == 0
                },
                Err(e) => (capacity == 0 || capacity > MAX_CAPACITY) && e@
                    == crate::error::StoreErrorView::Config,
            },
    {
        if capacity == 0 || capacity > MAX_CAPACITY {
            Err(StoreError::Config)
        } else {
            Ok(OrderCache { inner: lru_new(capacity) })
        }
    }

    /// The number of orders held.
    pub fn len(&self) -> (n: usize)
        ensures
            n == self.entries().len(),
    {
        lru_len(&self.inner)
    }

    /// The order held for `key`, which becomes the most recently touched.
    pub fn get(&mut self, key: &String) -> (r: Option<Order>)
        requires
            old(self).wf(),
        ensures
            final(self).wf(),
            final(self).capacity() == old(self).capacity(),
            final(self).entries() == touch_entries(old(self).entries(), key@),
            match r {
                Some(order) => lookup(old(self).entries(), key@) == Some(order@),
                None => lookup(old(self).entries(), key@).is_none(),
            },
    {
        proof {
            lemma_touch_well_formed(self.entries(), self.capacity(), key@);
        }
        match lru_get(&mut self.inner, key) {
            Some(order) => Some(order.clone()),
            None => None,
        }
    }

    /// Holds `order` for `key` from now on, as the most recently touched
    /// entry. A full cache first drops the entry touched longest ago.
    pub fn put(&mut self, key: String, order: Order)
        requires
            old(self).wf(),
        ensures
            final(self).wf(),
            final(self).capacity() == old(self).capacity(),
            final(self).entries() == put_entries(
                old(self).entries(),
                old(self).capacity(),
                key@,
                order@,
            ),
    {
        proof {
            lemma_put_well_formed(self.entries(), self.capacity(), key@, order@);
        }
        let _ = lru_put(&mut self.inner, key, order);
    }
}

/// Touching an entry keeps the invariant.
pub proof fn lemma_touch_well_formed(s: Entries, cap: nat, key: Seq<char>)
    requires
        well_formed(s, cap),
    ensures
        well_formed(touch_entries(s, key), cap),
{
    lemma_index_of(s, key);
}

/// Putting an entry keeps the invariant.
pub proof fn lemma_put_well_formed(s: Entries, cap: nat, key: Seq<char>, value: OrderView)
    requires
        well_formed(s, cap),
    ensures
        well_formed(put_entries(s, cap, key, value), cap),
{
    lemma_index_of(s, key);
}

/// Among distinct identifiers, an identifier is found where it stands.
pub proof fn lemma_index_of_distinct(s: Entries, i: int)
    requires
        distinct_keys(s),
        0 <= i < s.len(),
    ensures
        index_of(s, s[i].0) == i,
        lookup(s, s[i].0) == Some(s[i].1),
{
    lemma_index_of(s, s[i].0);
}

/// A put is seen by the next lookup of the same identifier.
pub proof fn law_put_then_lookup(s: Entries, cap: nat, key: Seq<char>, value: OrderView)
    ensures
        lookup(put_entries(s, cap, key, value), key) == Some(value),
        put_entries(s, cap, key, value)[0] == (key, value),
{
    let after = put_entries(s, cap, key, value);
    assert(after[0] == (key, value));
    lemma_index_of(after, key);
}

/// A put leaves the entries of other identifiers as they were, but for the
/// one entry that a full cache drops.
pub proof fn law_put_keeps_others(
    s: Entries,
    cap: nat,
    key: Seq<char>,
    value: OrderView,
    other: Seq<char>,
)
    requires
        well_formed(s, cap),
        other != key,
        has_key(s, key) || s.len() < cap || other != s.last().0,
    ensures
        lookup(put_entries(s, cap, key, value), other) == lookup(s, other),
{
    let after = put_entries(s, cap, key, value);
    lemma_put_well_formed(s, cap, key, value);
    lemma_index_of(s, key);
    lemma_index_of(s, other);
    lemma_index_of(after, other);
    if has_key(s, other) {
        let i = index_of(s, other);
        let k = index_of(s, key);
        let j = if has_key(s, key) && i < k {
            i + 1
        } else if has_key(s, key) {
            i
        } else {
            i + 1
        };
        assert(after[j] == s[i]);
        lemma_index_of_distinct(after, j);
    } else if has_key(after, other) {
        let j = index_of(after, other);
        assert(j > 0);
        let k = index_of(s, key);
        let i = if has_key(s, key) && j - 1 < k {
            j - 1
        } else if has_key(s, key) {
            j
        } else {
            j - 1
        };
        assert(s[i] == after[j]);
    }
}

/// A put of a new identifier into a full cache drops the entry touched
/// longest ago, and only that one.
pub proof fn law_put_evicts_least_recent(s: Entries, cap: nat, key: Seq<char>, value: OrderView)
    requires
        well_formed(s, cap),
        s.len() == cap,
        !has_key(s, key),
    ensures
        put_entries(s, cap, key, value) == seq![(key, value)] + s.drop_last(),
        put_entries(s, cap, key, value).len() == cap,
        !has_key(put_entries(s, cap, key, value), s.last().0),
        forall|i: int|
            0 <= i < s.len() - 1 ==> lookup(put_entries(s, cap, key, value), #[trigger] s[i].0)
                == Some(s[i].1),
{
    let after = put_entries(s, cap, key, value);
    lemma_put_well_formed(s, cap, key, value);
    lemma_index_of(s, key);
    lemma_index_of(after, s.last().0);
    if has_key(after, s.last().0) {
        let j = index_of(after, s.last().0);
        assert(j > 0);
        assert(after[j] == s[j - 1]);
    }
    assert forall|i: int| 0 <= i < s.len() - 1 implies lookup(after, #[trigger] s[i].0) == Some(
        s[i].1,
    ) by {
        assert(after[i + 1] == s[i]);
        lemma_index_of_distinct(after, i + 1);
    }
}

/// An entry that was just touched is not the one that the next put drops,
/// in a cache that has room for more than one entry.
pub proof fn law_touch_protects(
    s: Entries,
    cap: nat,
    touched: Seq<char>,
    key: Seq<char>,
    value: OrderView,
)
    requires
        well_formed(s, cap),
        cap >= 2,
        has_key(s, touched),
        key != touched,
    ensures
        lookup(put_entries(touch_entries(s, touched), cap, key, value), touched) == lookup(
            s,
            touched,
        ),
{
    let t = touch_entries(s, touched);
    lemma_touch_well_formed(s, cap, touched);
    lemma_index_of(s, touched);
    assert(t[0] == s[index_of(s, touched)]);
    lemma_index_of_distinct(t, 0);
    if !has_key(t, key) && t.len() == cap {
        assert(t.last().0 != t[0].0);
    }
    law_put_keeps_others(t, cap, key, value, touched);
}

/// The entries after each pair of `items` was put in turn, the first one first.
pub open spec fn put_all(s: Entries, cap: nat, items: Entries) -> Entries
    decreases items.len(),
{
    if items.len() == 0 {
        s
    } else {
        put_entries(put_all(s, cap, items.drop_last()), cap, items.last().0, items.last().1)
    }
}

/// The last `cap` of `items`, the last one first.
pub open spec fn most_recent(items: Entries, cap: nat) -> Entries {
    Seq::new(
        if items.len() <= cap {
            items.len()
        } else {
            cap
        },
        |i: int| items[items.len() - 1 - i],
    )
}

/// An empty cache that is given orders under distinct identifiers holds the
/// last ones given, as many as its capacity allows, the latest at the front.
pub proof fn law_fill_keeps_most_recent(cap: nat, items: Entries)
    requires
        0 < cap,
        distinct_keys(items),
    ensures
        put_all(Seq::empty(), cap, items) == most_recent(items, cap),
    decreases items.len(),
{
    if items.len() == 0 {
        assert(most_recent(items, cap) =~= Seq::empty());
    } else {
        let front = items.drop_last();
        law_fill_keeps_most_recent(cap, front);
        let before = most_recent(front, cap);
        let key = items.last().0;
        lemma_index_of(before, key);
        if has_key(before, key) {
            let j = index_of(before, key);
            assert(before[j] == front[front.len() - 1 - j]);
            assert(front[front.len() - 1 - j] == items[front.len() - 1 - j]);
        }
        assert(put_entries(before, cap, key, items.last().1) =~= most_recent(items, cap));
    }
}

/// A cache of capacity `cap` that is given one order more than it can hold,
/// all under distinct identifiers, has dropped the first and holds the rest.
pub proof fn law_one_past_capacity(cap: nat, items: Entries)
    requires
        0 < cap,
        distinct_keys(items),
        items.len() == cap + 1,
    ensures
        put_all(Seq::empty(), cap, items).len() == cap,
        !has_key(put_all(Seq::empty(), cap, items), items[0].0),
        forall|i: int|
            1 <= i <= cap ==> lookup(put_all(Seq::empty(), cap, items), #[trigger] items[i].0)
                == Some(items[i].1),
{
    let after = put_all(Seq::empty(), cap, items);
    law_fill_keeps_most_recent(cap, items);
    lemma_index_of(after, items[0].0);
    if has_key(after, items[0].0) {
        let j = index_of(after, items[0].0);
        assert(after[j] == items[cap - j]);
    }
    assert(distinct_keys(after)) by {
        assert forall|a: int, b: int| 0 <= a < b < after.len() implies after[a].0
            != after[b].0 by {
            assert(after[a] == items[cap - a]);
            assert(after[b] == items[cap - b]);
        }
    }
    assert forall|i: int| 1 <= i <= cap implies lookup(after, #[trigger] items[i].0) == Some(
        items[i].1,
    ) by {
        assert(after[cap - i] == items[i]);
        lemma_index_of_distinct(after, cap - i);
    }
}

} // verus!
