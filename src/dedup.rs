//! A bounded least-recently-used set of delivery keys.
use lru::LruCache;
use std::num::NonZeroUsize;
use vstd::prelude::*;

verus! {

/// The raw key stored in the cache: destination id, origin server, note id.
pub type KeyTuple = (u64, String, String);

/// The mathematical form of a key.
pub type KeyView = (u64, Seq<char>, Seq<char>);

/// An `lru::LruCache` of keys with unit values. Its default hasher is a type
/// of a crate this library does not name, so the cache stays behind this
/// opaque holder, and what it contains is described by `lru_order` and
/// `lru_capacity`.
#[verifier::external_body]
pub struct KeyLru {
    inner: LruCache<KeyTuple, ()>,
}

/// The keys the cache holds, least recently touched first.
pub uninterp spec fn lru_order(c: KeyLru) -> Seq<KeyView>;

/// The capacity the cache was built with.
pub uninterp spec fn lru_capacity(c: KeyLru) -> nat;

/// Relies on `lru::LruCache::new`: an empty cache holding at most `cap` entries.
#[verifier::external_body]
fn lru_new(cap: usize) -> (r: KeyLru)
    requires
        cap > 0,
    ensures
        lru_order(r) == Seq::<KeyView>::empty(),
        lru_capacity(r) == cap as nat,
{
    KeyLru { inner: LruCache::new(NonZeroUsize::new(cap).unwrap()) }
}

/// Relies on `lru::LruCache::push`: a key already present keeps its place in
/// the map, moves to the most recent end and is handed back; an absent key is
/// added at the most recent end, and when the cache is full the least recent
/// entry is removed and handed back; otherwise nothing is handed back.
#[verifier::external_body]
fn lru_push(c: &mut KeyLru, k: KeyTuple) -> (r: Option<KeyTuple>)
    ensures
        lru_capacity(*final(c)) == lru_capacity(*old(c)),
        lru_order(*old(c)).contains(k@) ==> {
            &&& lru_order(*final(c)) == lru_order(*old(c)).remove_value(k@).push(k@)
            &&& r is Some && r->0@ == k@
        },
        !lru_order(*old(c)).contains(k@) && lru_order(*old(c)).len() < lru_capacity(*old(c))
            ==> {
            &&& lru_order(*final(c)) == lru_order(*old(c)).push(k@)
            &&& r is None
        },
        !lru_order(*old(c)).contains(k@) && lru_order(*old(c)).len() == lru_capacity(*old(c))
            ==> {
            &&& lru_order(*final(c)) == lru_order(*old(c)).drop_first().push(k@)
            &&& r is Some && r->0@ == lru_order(*old(c))[0]
        },
{
    c.inner.push(k, ()).map(|(key, _)| key)
}

/// The key under which a note counts as delivered: this note, for this
/// destination webhook, from this origin server.
#[derive(Debug)]
pub struct DedupKey {
    pub destination_id: u64,
    pub origin_server: String,
    pub note_id: String,
}

impl View for DedupKey {
    type V = KeyView;

    open spec fn view(&self) -> KeyView {
        (self.destination_id, self.origin_server@, self.note_id@)
    }
}

/// Whether a key was seen before it was inserted.
#[derive(Clone, Copy, Debug, PartialEq, Eq, Structural)]
pub enum Freshness {
    Fresh,
    Duplicate,
}

/// The keys that remain after `k` is inserted into a cache that holds `order`
/// (least recently touched first) with room for `cap` keys.
pub open spec fn after_insert(order: Seq<KeyView>, cap: nat, k: KeyView) -> Seq<KeyView> {
    if order.contains(k) {
        order.remove_value(k).push(k)
    } else if order.len() < cap {
        order.push(k)
    } else {
        order.drop_first().push(k)
    }
}

/// What inserting `k` into a cache that holds `order` reports.
pub open spec fn insert_report(order: Seq<KeyView>, k: KeyView) -> Freshness {
    if order.contains(k) {
        Freshness::Duplicate
    } else {
        Freshness::Fresh
    }
}

/// A cache state: no key twice, never more than `cap` keys, and room for one.
pub open spec fn order_wf(order: Seq<KeyView>, cap: nat) -> bool {
    &&& cap > 0
    &&& order.no_duplicates()
    &&& order.len() <= cap
}

/// The number of keys a service's cache holds unless configured otherwise.
pub const DEFAULT_CAPACITY: usize = 1024;

/// The bounded set of delivered note keys, shared by all requests.
pub struct DedupCache {
    entries: KeyLru,
}

impl DedupCache {
    /// The keys held, least recently touched first.
    pub closed spec fn order(&self) -> Seq<KeyView> {
        lru_order(self.entries)
    }

    /// The most keys the cache holds at once.
    pub closed spec fn capacity(&self) -> nat {
        lru_capacity(self.entries)
    }

    pub open spec fn wf(&self) -> bool {
        order_wf(self.order(), self.capacity())
    }

    /// An empty cache holding at most `capacity` keys.
    pub fn new(capacity: usize) -> (r: DedupCache)
        requires
            capacity > 0,
        ensures
            r.wf(),
            r.order() == Seq::<KeyView>::empty(),
            r.capacity() == capacity as nat,
    {
        DedupCache { entries: lru_new(capacity) }
    }

    /// Inserts `key` as the most recently touched one, in one step: reports
    /// `Duplicate` when it was already held, else `Fresh`; a fresh key that
    /// finds the cache full evicts the least recently touched key.
    pub fn check_and_insert(&mut self, key: &DedupKey) -> (r: Freshness)
        requires
            old(self).wf(),
        ensures
            final(self).wf(),
            final(self).capacity() == old(self).capacity(),
            final(self).order() == after_insert(old(self).order(), old(self).capacity(), key@),
            r == insert_report(old(self).order(), key@),
    {
        let k: KeyTuple = (key.destination_id, key.origin_server.clone(), key.note_id.clone());
        let ghost before = self.order();
        let replaced = lru_push(&mut self.entries, k);
        proof {
            lemma_insert_wf(before, self.capacity(), key@);
        }
        match replaced {
            Some(p) => {
                if p.0 == key.destination_id && p.1 == key.origin_server && p.2 == key.note_id {
                    Freshness::Duplicate
                } else {
                    proof {
                        if before.contains(key@) {
                            assert(p@ == key@);
                        }
                    }
                    Freshness::Fresh
                }
            },
            None => Freshness::Fresh,
        }
    }
}

/// Inserting a key keeps a cache state well formed.
pub proof fn lemma_insert_wf(order: Seq<KeyView>, cap: nat, k: KeyView)
    requires
        order_wf(order, cap),
    ensures
        order_wf(after_insert(order, cap, k), cap),
        after_insert(order, cap, k).contains(k),
{
    let r = after_insert(order, cap, k);
    assert(r[r.len() - 1] == k);
    if order.contains(k) {
        order.index_of_first_ensures(k);
        let i = order.index_of_first(k)->0;
        let rest = order.remove_value(k);
        assert(rest == order.remove(i));
        order.remove_ensures(i);
        assert forall|a: int, b: int| 0 <= a < b < r.len() implies r[a] != r[b] by {
            if b == r.len() - 1 {
                let j = if a < i { a } else { a + 1 };
                assert(rest[a] == order[j]);
            } else {
                let ja = if a < i { a } else { a + 1 };
                let jb = if b < i { b } else { b + 1 };
                assert(rest[a] == order[ja]);
                assert(rest[b] == order[jb]);
            }
        }
    } else if order.len() < cap {
        assert forall|a: int, b: int| 0 <= a < b < r.len() implies r[a] != r[b] by {
            if b == r.len() - 1 {
                assert(r[a] == order[a]);
            }
        }
    } else {
        let rest = order.drop_first();
        assert forall|a: int, b: int| 0 <= a < b < r.len() implies r[a] != r[b] by {
            assert(r[a] == order[a + 1]);
            if b < r.len() - 1 {
                assert(r[b] == order[b + 1]);
            }
        }
    }
}

/// The keys held after inserting each of `ks` in turn, starting from `order`.
pub open spec fn insert_all(order: Seq<KeyView>, cap: nat, ks: Seq<KeyView>) -> Seq<KeyView>
    decreases ks.len(),
{
    if ks.len() == 0 {
        order
    } else {
        after_insert(insert_all(order, cap, ks.drop_last()), cap, ks.last())
    }
}

/// A note key submitted twice in succession is delivered the first time when
/// it was not held, and is reported as a duplicate the second time.
pub proof fn lemma_repeat_is_duplicate(order: Seq<KeyView>, cap: nat, k: KeyView)
    requires
        order_wf(order, cap),
    ensures
        !order.contains(k) ==> insert_report(order, k) == Freshness::Fresh,
        insert_report(after_insert(order, cap, k), k) == Freshness::Duplicate,
{
    lemma_insert_wf(order, cap, k);
}

/// Distinct keys inserted into an empty cache, no more than it holds, are all
/// kept in the order of insertion.
proof fn lemma_fill_keeps_all(cap: nat, ks: Seq<KeyView>)
    requires
        ks.no_duplicates(),
        ks.len() <= cap,
    ensures
        insert_all(Seq::<KeyView>::empty(), cap, ks) == ks,
    decreases ks.len(),
{
    if ks.len() > 0 {
        let prev = ks.drop_last();
        assert(prev.no_duplicates());
        lemma_fill_keeps_all(cap, prev);
        assert(!prev.contains(ks.last()));
        assert(prev.push(ks.last()) == ks);
    }
}

/// After `cap + 1` distinct keys are inserted into an empty cache of capacity
/// `cap`, the first key is gone and is fresh again, while every later key is
/// still held, is reported as a duplicate, and becomes the most recent.
pub proof fn lemma_overflow_evicts_oldest(cap: nat, ks: Seq<KeyView>)
    requires
        cap > 0,
        ks.len() == cap + 1,
        ks.no_duplicates(),
    ensures
        !insert_all(Seq::<KeyView>::empty(), cap, ks).contains(ks[0]),
        insert_report(insert_all(Seq::<KeyView>::empty(), cap, ks), ks[0]) == Freshness::Fresh,
        forall|i: int|
            1 <= i <= cap ==> insert_all(Seq::<KeyView>::empty(), cap, ks).contains(#[trigger] ks[i]),
        forall|i: int|
            1 <= i <= cap ==> insert_report(insert_all(Seq::<KeyView>::empty(), cap, ks), #[trigger] ks[i])
                == Freshness::Duplicate,
        forall|i: int|
            1 <= i <= cap ==> after_insert(insert_all(Seq::<KeyView>::empty(), cap, ks), cap, #[trigger] ks[i]).last()
                == ks[i],
{
    let prev = ks.drop_last();
    assert(prev.no_duplicates());
    lemma_fill_keeps_all(cap, prev);
    assert(!prev.contains(ks.last()));
    let s = insert_all(Seq::<KeyView>::empty(), cap, ks);
    assert(s == prev.drop_first().push(ks.last()));
    assert(s == ks.subrange(1, cap as int + 1));
    assert forall|i: int| 1 <= i <= cap implies s.contains(#[trigger] ks[i]) by {
        assert(s[i - 1] == ks[i]);
    }
    assert(!s.contains(ks[0])) by {
        if s.contains(ks[0]) {
            let j = choose|j: int| 0 <= j < s.len() && s[j] == ks[0];
            assert(ks[j + 1] == ks[0]);
        }
    }
}

} // verus!
