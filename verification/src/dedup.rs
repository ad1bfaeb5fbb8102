//! Bounded memory of the device addresses that were already reported.

use crate::address::DeviceAddress;
use vstd::prelude::*;

verus! {

/// What a full cache does with an address it has not seen.
#[derive(Clone, Copy, Debug, PartialEq, Eq, Structural)]
pub enum DedupPolicy {
    /// The oldest address leaves and the new one is remembered. An address
    /// that left is reported again when it shows up again.
    Fifo,
    /// The new address is not remembered: it is reported every time it shows
    /// up, while the addresses that were remembered stay so for good.
    FixedSet,
}

/// Number of addresses that the first-in-first-out policy remembers.
pub const FIFO_CAPACITY: usize = 128;

/// Number of addresses that the fixed-set policy remembers.
pub const SET_CAPACITY: usize = 32;

/// The bounded queue of `heapless`.
#[verifier::external_type_specification]
#[verifier::external_body]
#[verifier::reject_recursive_types(T)]
pub struct ExDeque<T, const N: usize>(heapless::Deque<T, N>);

/// The keys that a queue holds, oldest first.
pub uninterp spec fn queue_keys(q: heapless::Deque<u64, FIFO_CAPACITY>) -> Seq<u64>;

/// `heapless::Deque::new`: an empty queue.
#[verifier::external_body]
fn queue_new() -> (q: heapless::Deque<u64, FIFO_CAPACITY>)
    ensures
        queue_keys(q) == Seq::<u64>::empty(),
{
    heapless::Deque::new()
}

/// `heapless::Deque::is_full`: whether the queue holds as many keys as it has
/// room for.
#[verifier::external_body]
fn queue_is_full(q: &heapless::Deque<u64, FIFO_CAPACITY>) -> (r: bool)
    ensures
        r == (queue_keys(*q).len() == FIFO_CAPACITY),
{
    q.is_full()
}

/// `heapless::Deque::as_slices`: two slices that hold, one after the other,
/// the keys of the queue from the oldest to the newest.
#[verifier::external_body]
fn queue_slices<'a>(q: &'a heapless::Deque<u64, FIFO_CAPACITY>) -> (r: (&'a [u64], &'a [u64]))
    ensures
        r.0@ + r.1@ == queue_keys(*q),
{
    q.as_slices()
}

/// `heapless::Deque::pop_front`: takes the oldest key out and returns it; an
/// empty queue stays as it is and gives `None`.
#[verifier::external_body]
fn queue_pop_front(q: &mut heapless::Deque<u64, FIFO_CAPACITY>) -> (r: Option<u64>)
    ensures
        queue_keys(*old(q)).len() == 0 ==> r is None && queue_keys(*final(q)) == queue_keys(
            *old(q),
        ),
        queue_keys(*old(q)).len() > 0 ==> r == Some(queue_keys(*old(q))[0]) && queue_keys(
            *final(q),
        ) == queue_keys(*old(q)).drop_first(),
{
    q.pop_front()
}

/// `heapless::Deque::push_back`: appends the key as the newest one; a full
/// queue stays as it is and hands the key back.
#[verifier::external_body]
fn queue_push_back(q: &mut heapless::Deque<u64, FIFO_CAPACITY>, key: u64) -> (r: Result<(), u64>)
    ensures
        r is Err <==> queue_keys(*old(q)).len() == FIFO_CAPACITY,
        r matches Err(k) ==> k == key && queue_keys(*final(q)) == queue_keys(*old(q)),
        r is Ok ==> queue_keys(*final(q)) == queue_keys(*old(q)).push(key),
{
    q.push_back(key)
}

/// The hasher factory of `hash32` that the bounded set is made with.
#[verifier::external_type_specification]
#[verifier::external_body]
#[verifier::reject_recursive_types(H)]
pub struct ExBuildHasherDefault<H>(hash32::BuildHasherDefault<H>);

/// The 32-bit FNV hasher of `hash32`.
#[verifier::external_type_specification]
#[verifier::external_body]
pub struct ExFnvHasher(hash32::FnvHasher);

/// The bounded hash set of `heapless`.
#[verifier::external_type_specification]
#[verifier::external_body]
#[verifier::reject_recursive_types(T)]
#[verifier::reject_recursive_types(S)]
pub struct ExIndexSet<T, S, const N: usize>(heapless::IndexSet<T, S, N>);

/// The keys that a set holds.
pub uninterp spec fn set_keys(s: heapless::FnvIndexSet<u64, SET_CAPACITY>) -> Set<u64>;

/// `heapless::IndexSet::new`: an empty set.
#[verifier::external_body]
fn set_new() -> (s: heapless::FnvIndexSet<u64, SET_CAPACITY>)
    ensures
        set_keys(s) == Set::<u64>::empty(),
{
    heapless::IndexSet::new()
}

/// `heapless::IndexSet::contains`: whether the set holds the key.
#[verifier::external_body]
fn set_contains(s: &heapless::FnvIndexSet<u64, SET_CAPACITY>, key: u64) -> (r: bool)
    ensures
        r == set_keys(*s).contains(key),
{
    s.contains(&key)
}

/// `heapless::IndexSet::insert`: a key that the set holds changes nothing and
/// gives `Ok(false)`; a new key is added and gives `Ok(true)`, unless the set
/// is full, which leaves it as it is and hands the key back.
#[verifier::external_body]
fn set_insert(s: &mut heapless::FnvIndexSet<u64, SET_CAPACITY>, key: u64) -> (r: Result<bool, u64>)
    ensures
        r is Err <==> !set_keys(*old(s)).contains(key) && set_keys(*old(s)).len() == SET_CAPACITY,
        r matches Err(k) ==> k == key && set_keys(*final(s)) == set_keys(*old(s)),
        r matches Ok(fresh) ==> fresh == !set_keys(*old(s)).contains(key) && set_keys(*final(s))
            == set_keys(*old(s)).insert(key),
{
    s.insert(key)
}

/// What a cache remembers, as plain values: under the first-in-first-out
/// policy the keys in the order they came, under the fixed-set policy the set
/// of keys.
pub enum CacheModel {
    Fifo(Seq<u64>),
    FixedSet(Set<u64>),
}

impl CacheModel {
    /// Nothing is remembered twice, and never more than the capacity.
    pub open spec fn wf(self) -> bool {
        match self {
            CacheModel::Fifo(order) => order.no_duplicates() && order.len() <= FIFO_CAPACITY,
            CacheModel::FixedSet(keys) => keys.finite() && keys.len() <= SET_CAPACITY,
        }
    }

    /// The cache that remembers nothing, under the given policy.
    pub open spec fn empty(policy: DedupPolicy) -> CacheModel {
        match policy {
            DedupPolicy::Fifo => CacheModel::Fifo(Seq::empty()),
            DedupPolicy::FixedSet => CacheModel::FixedSet(Set::empty()),
        }
    }

    /// The policy the cache is under.
    pub open spec fn policy(self) -> DedupPolicy {
        match self {
            CacheModel::Fifo(_) => DedupPolicy::Fifo,
            CacheModel::FixedSet(_) => DedupPolicy::FixedSet,
        }
    }

    /// How many keys the cache has room for.
    pub open spec fn capacity(self) -> nat {
        match self {
            CacheModel::Fifo(_) => FIFO_CAPACITY as nat,
            CacheModel::FixedSet(_) => SET_CAPACITY as nat,
        }
    }

    /// How many keys are remembered.
    pub open spec fn len(self) -> nat {
        match self {
            CacheModel::Fifo(order) => order.len(),
            CacheModel::FixedSet(keys) => keys.len(),
        }
    }

    /// Whether the key is remembered.
    pub open spec fn seen(self, key: u64) -> bool {
        match self {
            CacheModel::Fifo(order) => order.contains(key),
            CacheModel::FixedSet(keys) => keys.contains(key),
        }
    }

    /// The cache after the key was recorded. A remembered key changes
    /// nothing; a new key is appended, after the oldest key left a full
    /// first-in-first-out cache, and is dropped by a full fixed set.
    pub open spec fn record(self, key: u64) -> CacheModel {
        if self.seen(key) {
            self
        } else {
            match self {
                CacheModel::Fifo(order) => if order.len() >= FIFO_CAPACITY {
                    CacheModel::Fifo(order.drop_first().push(key))
                } else {
                    CacheModel::Fifo(order.push(key))
                },
                CacheModel::FixedSet(keys) => if keys.len() >= SET_CAPACITY {
                    self
                } else {
                    CacheModel::FixedSet(keys.insert(key))
                },
            }
        }
    }

    /// The cache after the keys were recorded one after the other.
    pub open spec fn record_all(self, keys: Seq<u64>) -> CacheModel
        decreases keys.len(),
    {
        if keys.len() == 0 {
            self
        } else {
            self.record(keys[0]).record_all(keys.drop_first())
        }
    }

    /// How many keys of a first-in-first-out cache are newer than `key`.
    pub open spec fn newer_than(self, key: u64) -> int
        recommends
            self is Fifo,
            self.seen(key),
    {
        self->Fifo_0.len() - 1 - self->Fifo_0.index_of(key)
    }

    /// Whether recording `next` makes a first-in-first-out cache forget `key`:
    /// the cache is full, `key` is its oldest, and `next` is new to it.
    pub open spec fn evicts(self, key: u64, next: u64) -> bool {
        &&& self matches CacheModel::Fifo(order)
        &&& order.len() >= FIFO_CAPACITY
        &&& order[0] == key
        &&& !order.contains(next)
    }
}

/// Recording keeps a cache well-formed and under its policy.
pub proof fn lemma_record_wf(cache: CacheModel, key: u64)
    requires
        cache.wf(),
    ensures
        cache.record(key).wf(),
        cache.record(key).policy() == cache.policy(),
{
}

/// Recording any number of keys keeps a cache well-formed and under its
/// policy.
pub proof fn lemma_record_all_wf(cache: CacheModel, keys: Seq<u64>)
    requires
        cache.wf(),
    ensures
        cache.record_all(keys).wf(),
        cache.record_all(keys).policy() == cache.policy(),
    decreases keys.len(),
{
    if keys.len() > 0 {
        lemma_record_wf(cache, keys[0]);
        lemma_record_all_wf(cache.record(keys[0]), keys.drop_first());
    }
}

/// A key is seen right after it was recorded. The one exception is a fixed
/// set that is full of other keys, which takes no new key.
pub proof fn lemma_seen_after_record(cache: CacheModel, key: u64)
    requires
        cache.wf(),
        cache is FixedSet ==> cache.seen(key) || cache.len() < SET_CAPACITY,
    ensures
        cache.record(key).seen(key),
{
    if !cache.seen(key) {
        match cache {
            CacheModel::Fifo(order) => {
                let after = cache.record(key)->Fifo_0;
                assert(after[after.len() - 1] == key);
            },
            CacheModel::FixedSet(keys) => {},
        }
    }
}

/// A full fixed set that does not hold a key does not take it.
pub proof fn lemma_full_set_takes_nothing(cache: CacheModel, key: u64)
    requires
        cache.wf(),
        cache is FixedSet,
        cache.len() == SET_CAPACITY,
    ensures
        cache.record(key) == cache,
{
}

/// Under the fixed-set policy a key that is seen stays seen, whatever is
/// recorded afterwards.
pub proof fn lemma_fixed_set_keeps(cache: CacheModel, key: u64, later: Seq<u64>)
    requires
        cache is FixedSet,
        cache.seen(key),
    ensures
        cache.record_all(later).seen(key),
    decreases later.len(),
{
    if later.len() > 0 {
        lemma_fixed_set_keeps(cache.record(later[0]), key, later.drop_first());
    }
}

/// Under the first-in-first-out policy a key that is seen stays seen when
/// another key is recorded, unless that record evicts it; and an evicted key
/// is no longer seen.
pub proof fn lemma_fifo_keeps_until_evicted(cache: CacheModel, key: u64, next: u64)
    requires
        cache.wf(),
        cache is Fifo,
        cache.seen(key),
    ensures
        cache.record(next).seen(key) <==> !cache.evicts(key, next),
        !cache.evicts(key, next) ==> cache.record(next).newer_than(key) <= cache.newer_than(key)
            + 1,
{
    let order = cache->Fifo_0;
    let after = cache.record(next)->Fifo_0;
    let i = order.index_of(key);
    if order.contains(next) {
    } else if order.len() >= FIFO_CAPACITY {
        if i == 0 {
            assert forall|j: int| 0 <= j < after.len() implies after[j] != key by {
                if j < after.len() - 1 {
                    assert(after[j] == order[j + 1]);
                }
            }
        } else {
            assert(after[i - 1] == key);
            lemma_record_wf(cache, next);
            assert(after.index_of(key) == i - 1);
        }
    } else {
        assert(after[i] == key);
        lemma_record_wf(cache, next);
        assert(after.index_of(key) == i);
    }
}

/// Under the first-in-first-out policy a key stays seen while fewer keys
/// than the capacity have come after it.
pub proof fn lemma_fifo_keeps_while_recent(cache: CacheModel, key: u64, later: Seq<u64>)
    requires
        cache.wf(),
        cache is Fifo,
        cache.seen(key),
        cache.newer_than(key) + later.len() < FIFO_CAPACITY,
    ensures
        cache.record_all(later).seen(key),
    decreases later.len(),
{
    if later.len() > 0 {
        let order = cache->Fifo_0;
        assert(cache.evicts(key, later[0]) ==> order.index_of(key) == 0);
        lemma_fifo_keeps_until_evicted(cache, key, later[0]);
        lemma_record_wf(cache, later[0]);
        lemma_fifo_keeps_while_recent(cache.record(later[0]), key, later.drop_first());
    }
}

/// Under the first-in-first-out policy a key that was just recorded is seen
/// through the next records, as long as there are fewer of them than the
/// capacity.
pub proof fn lemma_fifo_keeps_recorded(cache: CacheModel, key: u64, later: Seq<u64>)
    requires
        cache.wf(),
        cache is Fifo,
        !cache.seen(key),
        later.len() < FIFO_CAPACITY,
    ensures
        cache.record(key).record_all(later).seen(key),
{
    let after = cache.record(key)->Fifo_0;
    lemma_record_wf(cache, key);
    lemma_seen_after_record(cache, key);
    assert(after[after.len() - 1] == key);
    assert(after.index_of(key) == after.len() - 1);
    lemma_fifo_keeps_while_recent(cache.record(key), key, later);
}

enum Store {
    Fifo(heapless::Deque<u64, FIFO_CAPACITY>),
    FixedSet(heapless::FnvIndexSet<u64, SET_CAPACITY>),
}

/// Bounded memory of the addresses that were reported, under one of the two
/// policies.
pub struct DedupCache {
    store: Store,
}

impl View for DedupCache {
    type V = CacheModel;

    closed spec fn view(&self) -> CacheModel {
        match self.store {
            Store::Fifo(q) => CacheModel::Fifo(queue_keys(q)),
            Store::FixedSet(s) => CacheModel::FixedSet(set_keys(s)),
        }
    }
}

/// Whether `key` occurs in `keys`.
fn holds_key(keys: &[u64], key: u64) -> (r: bool)
    ensures
        r == keys@.contains(key),
{
    let mut i: usize = 0;
    while i < keys.len()
        invariant
            i <= keys.len(),
            forall|j: int| 0 <= j < i ==> keys@[j] != key,
        decreases keys.len() - i,
    {
        if keys[i] == key {
            return true;
        }
        i = i + 1;
    }
    false
}

impl DedupCache {
    /// The cache holds nothing twice and no more than its capacity.
    pub open spec fn wf(&self) -> bool {
        self@.wf()
    }

    /// An empty cache under the given policy.
    pub fn new(policy: DedupPolicy) -> (r: Self)
        ensures
            r.wf(),
            r@ == CacheModel::empty(policy),
    {
        match policy {
            DedupPolicy::Fifo => DedupCache { store: Store::Fifo(queue_new()) },
            DedupPolicy::FixedSet => DedupCache { store: Store::FixedSet(set_new()) },
        }
    }

    /// The policy the cache was made with.
    pub fn policy(&self) -> (r: DedupPolicy)
        ensures
            r == self@.policy(),
    {
        match &self.store {
            Store::Fifo(_) => DedupPolicy::Fifo,
            Store::FixedSet(_) => DedupPolicy::FixedSet,
        }
    }

    /// How many addresses the cache can remember.
    pub fn capacity(&self) -> (r: usize)
        ensures
            r == self@.capacity(),
    {
        match &self.store {
            Store::Fifo(_) => FIFO_CAPACITY,
            Store::FixedSet(_) => SET_CAPACITY,
        }
    }

    /// Whether the address is remembered.
    pub fn seen(&self, addr: &DeviceAddress) -> (r: bool)
        ensures
            r == self@.seen(addr.key()),
    {
        let key = addr.dedup_key();
        match &self.store {
            Store::Fifo(q) => {
                let (front, back) = queue_slices(q);
                let in_front = holds_key(front, key);
                let in_back = holds_key(back, key);
                proof {
                    let all = front@ + back@;
                    if in_front {
                        let i = choose|i: int| 0 <= i < front@.len() && front@[i] == key;
                        assert(all[i] == key);
                    }
                    if in_back {
                        let i = choose|i: int| 0 <= i < back@.len() && back@[i] == key;
                        assert(all[front@.len() + i] == key);
                    }
                    if all.contains(key) {
                        let i = choose|i: int| 0 <= i < all.len() && all[i] == key;
                        if i < front@.len() {
                            assert(front@[i] == key);
                        } else {
                            assert(back@[i - front@.len()] == key);
                        }
                    }
                }
                in_front || in_back
            },
            Store::FixedSet(s) => set_contains(s, key),
        }
    }

    /// Remembers the address. Under the first-in-first-out policy a full
    /// cache first forgets its oldest address; under the fixed-set policy a
    /// full cache stays as it is.
    pub fn record(&mut self, addr: &DeviceAddress)
        requires
            old(self).wf(),
        ensures
            final(self).wf(),
            final(self)@ == old(self)@.record(addr.key()),
    {
        if self.seen(addr) {
            return ;
        }
        let key = addr.dedup_key();
        match &mut self.store {
            Store::Fifo(q) => {
                if queue_is_full(q) {
                    let _ = queue_pop_front(q);
                }
                let _ = queue_push_back(q, key);
            },
            Store::FixedSet(s) => {
                let _ = set_insert(s, key);
            },
        }
    }
}

} // verus!
