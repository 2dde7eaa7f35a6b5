//! The process-wide cache of sessions.
//!
//! The cache maps a session identifier to a [`CachedSession`]. A bounded
//! queue of the identifiers that were marked invalid keeps it from growing
//! without limit: when the queue is full, its oldest identifier leaves both
//! the queue and the map. Every operation hands out copies, never a live
//! handle into the map.
//!
//! An operation that changes the cache has it to itself while it runs. A
//! caller that shares the cache keeps it behind a lock, takes the lock for
//! one operation at a time, and never holds it while the store is asked.

use crate::session::CachedSession;
use crate::time::Timestamp;
use concurrent_queue::ConcurrentQueue;
use dashmap::DashMap;
use vstd::prelude::*;

verus! {

/// The largest limit that a cache can be made with: the queue's slots must
/// fit the address space.
pub const MAX_QUEUE_LIMIT: usize = usize::MAX / 64;

/// `dashmap::DashMap`, carried as an opaque value.
#[verifier::external_type_specification]
#[verifier::external_body]
#[verifier::reject_recursive_types(K)]
#[verifier::reject_recursive_types(V)]
#[verifier::reject_recursive_types(S)]
pub struct ExDashMap<K, V, S>(DashMap<K, V, S>);

/// `concurrent_queue::ConcurrentQueue`, carried as an opaque value.
#[verifier::external_type_specification]
#[verifier::external_body]
#[verifier::reject_recursive_types(T)]
pub struct ExConcurrentQueue<T>(ConcurrentQueue<T>);

/// The entries that a map of sessions holds, by identifier.
pub uninterp spec fn cache_entries(table: DashMap<String, CachedSession>) -> Map<Seq<char>, CachedSession>;

/// The identifiers that a queue holds, oldest first.
pub uninterp spec fn queue_items(queue: ConcurrentQueue<String>) -> Seq<Seq<char>>;

/// The number of identifiers that a queue was made to hold.
pub uninterp spec fn queue_capacity(queue: ConcurrentQueue<String>) -> nat;

/// The queue has been closed and takes no more identifiers.
pub uninterp spec fn queue_closed(queue: ConcurrentQueue<String>) -> bool;

/// Calls `DashMap::new`: the new map holds no entry.
#[verifier::external_body]
fn map_new() -> (table: DashMap<String, CachedSession>)
    ensures
        cache_entries(table).dom() == Set::<Seq<char>>::empty(),
{
    DashMap::new()
}

/// Calls `DashMap::get` and copies the entry out of the handle it returns:
/// the entry under `key`, if the map holds one.
#[verifier::external_body]
fn map_get(table: &DashMap<String, CachedSession>, key: &str) -> (found: Option<CachedSession>)
    ensures
        found == if cache_entries(*table).contains_key(key@) {
            Some(cache_entries(*table)[key@])
        } else {
            None
        },
{
    table.get(key).map(|entry| *entry.value())
}

/// Calls `DashMap::insert`: afterwards `key` maps to `value`, whatever it
/// mapped to before, and no other key has changed.
#[verifier::external_body]
fn map_insert(table: &mut DashMap<String, CachedSession>, key: String, value: CachedSession)
    ensures
        cache_entries(*final(table)) == cache_entries(*old(table)).insert(key@, value),
{
    table.insert(key, value);
}

/// Calls `DashMap::remove`: afterwards the map holds no entry under `key`,
/// and no other key has changed.
#[verifier::external_body]
fn map_remove(table: &mut DashMap<String, CachedSession>, key: &str)
    ensures
        cache_entries(*final(table)) == cache_entries(*old(table)).remove(key@),
{
    table.remove(key);
}

/// Calls `DashMap::alter` with [`CachedSession::invalidated`]: an entry
/// under `key` is replaced by the same entry marked invalid; a map without
/// such an entry stays as it is.
#[verifier::external_body]
fn map_mark_invalid(table: &mut DashMap<String, CachedSession>, key: &str)
    ensures
        cache_entries(*final(table)) == if cache_entries(*old(table)).contains_key(key@) {
            cache_entries(*old(table)).insert(key@, cache_entries(*old(table))[key@].marked_invalid())
        } else {
            cache_entries(*old(table))
        },
{
    table.alter(key, |_, entry| entry.invalidated());
}

/// Calls `DashMap::len`: the number of entries in the map.
#[verifier::external_body]
fn map_len(table: &DashMap<String, CachedSession>) -> (n: usize)
    ensures
        n == cache_entries(*table).dom().len(),
{
    table.len()
}

/// Calls `ConcurrentQueue::bounded`: an empty, open queue for `capacity`
/// identifiers. The call fails on a capacity of zero, and on one so large
/// that the size of its slots or its lap counter overflows; both are left
/// out.
#[verifier::external_body]
fn queue_bounded(capacity: usize) -> (queue: ConcurrentQueue<String>)
    requires
        0 < capacity <= MAX_QUEUE_LIMIT,
    ensures
        queue_items(queue) == Seq::<Seq<char>>::empty(),
        queue_capacity(queue) == capacity,
        !queue_closed(queue),
{
    ConcurrentQueue::bounded(capacity)
}

/// Calls `ConcurrentQueue::is_full`: the queue holds as many identifiers as
/// it was made for.
#[verifier::external_body]
fn queue_is_full(queue: &ConcurrentQueue<String>) -> (full: bool)
    ensures
        full == (queue_items(*queue).len() == queue_capacity(*queue)),
{
    queue.is_full()
}

/// Calls `ConcurrentQueue::pop`: the oldest identifier leaves the queue and
/// is returned; an empty queue stays as it is and gives nothing.
#[verifier::external_body]
fn queue_pop(queue: &mut ConcurrentQueue<String>) -> (oldest: Option<String>)
    ensures
        queue_capacity(*final(queue)) == queue_capacity(*old(queue)),
        queue_closed(*final(queue)) == queue_closed(*old(queue)),
        match oldest {
            Some(id) => {
                &&& queue_items(*old(queue)).len() > 0
                &&& id@ == queue_items(*old(queue))[0]
                &&& queue_items(*final(queue)) == queue_items(*old(queue)).drop_first()
            },
            None => {
                &&& queue_items(*old(queue)).len() == 0
                &&& queue_items(*final(queue)) == queue_items(*old(queue))
            },
        },
{
    queue.pop().ok()
}

/// Calls `ConcurrentQueue::push`: an open queue that is not full takes
/// `id` as its newest identifier; a full or closed queue stays as it is.
#[verifier::external_body]
fn queue_push(queue: &mut ConcurrentQueue<String>, id: String) -> (pushed: bool)
    ensures
        queue_capacity(*final(queue)) == queue_capacity(*old(queue)),
        queue_closed(*final(queue)) == queue_closed(*old(queue)),
        pushed == (!queue_closed(*old(queue)) && queue_items(*old(queue)).len()
            < queue_capacity(*old(queue))),
        queue_items(*final(queue)) == if pushed {
            queue_items(*old(queue)).push(id@)
        } else {
            queue_items(*old(queue))
        },
{
    queue.push(id).is_ok()
}

/// The cache as a mathematical value: the entries by identifier, the queue
/// of identifiers marked invalid (oldest first), and the queue's limit.
pub struct CacheModel {
    pub entries: Map<Seq<char>, CachedSession>,
    pub queue: Seq<Seq<char>>,
    pub limit: nat,
}

impl CacheModel {
    /// The cache that holds nothing yet.
    pub open spec fn empty(limit: nat) -> CacheModel {
        CacheModel { entries: Map::empty(), queue: Seq::empty(), limit }
    }

    /// The queue is within its limit, and every entry that is marked invalid
    /// has its identifier in the queue.
    pub open spec fn wf(self) -> bool {
        &&& 0 < self.limit
        &&& self.queue.len() <= self.limit
        &&& self.entries.dom().finite()
        &&& forall|id: Seq<char>|
            #[trigger] self.entries.contains_key(id) && self.entries[id].invalid
                ==> self.queue.contains(id)
    }

    /// The identifiers whose entry is marked invalid.
    pub open spec fn invalid_ids(self) -> Set<Seq<char>> {
        Set::new(|id: Seq<char>| self.entries.contains_key(id) && self.entries[id].invalid)
    }

    /// The cache after `id` has joined the queue: a full queue first gives
    /// up its oldest identifier, whose entry leaves the map.
    pub open spec fn enqueue(self, id: Seq<char>) -> CacheModel {
        if self.queue.len() >= self.limit && self.queue.len() > 0 {
            CacheModel {
                entries: self.entries.remove(self.queue[0]),
                queue: self.queue.drop_first().push(id),
                limit: self.limit,
            }
        } else {
            CacheModel { entries: self.entries, queue: self.queue.push(id), limit: self.limit }
        }
    }

    /// The cache after `id` maps to `entry`; an entry that is marked invalid
    /// also joins the queue.
    pub open spec fn insert(self, id: Seq<char>, entry: CachedSession) -> CacheModel {
        let stored = CacheModel {
            entries: self.entries.insert(id, entry),
            queue: self.queue,
            limit: self.limit,
        };
        if entry.invalid {
            stored.enqueue(id)
        } else {
            stored
        }
    }

    /// The cache after the entry under `id`, if there is one, has been
    /// marked invalid and `id` has joined the queue.
    pub open spec fn invalidate(self, id: Seq<char>) -> CacheModel {
        let marked = CacheModel {
            entries: if self.entries.contains_key(id) {
                self.entries.insert(id, self.entries[id].marked_invalid())
            } else {
                self.entries
            },
            queue: self.queue,
            limit: self.limit,
        };
        marked.enqueue(id)
    }

    /// What a lookup of `id` at `now` answers: nothing on a miss, else
    /// whether the entry counts as valid.
    pub open spec fn lookup_answer(self, id: Seq<char>, now: Timestamp) -> Option<bool> {
        if self.entries.contains_key(id) {
            Some(self.entries[id].valid_at(now))
        } else {
            None
        }
    }

    /// The lookup of `id` at `now` finds an entry that has run out but is
    /// not marked invalid yet.
    pub open spec fn expires_on_lookup(self, id: Seq<char>, now: Timestamp) -> bool {
        &&& self.entries.contains_key(id)
        &&& !self.entries[id].invalid
        &&& !self.entries[id].valid_at(now)
    }

    /// The cache after a lookup of `id` at `now`: an entry that has run out
    /// is invalidated, everything else stays.
    pub open spec fn after_lookup(self, id: Seq<char>, now: Timestamp) -> CacheModel {
        if self.expires_on_lookup(id, now) {
            self.invalidate(id)
        } else {
            self
        }
    }
}

/// One operation on the cache.
pub enum CacheOp {
    /// A lookup of an identifier at an instant.
    Lookup(Seq<char>, Timestamp),
    /// Storing an entry under an identifier.
    Insert(Seq<char>, CachedSession),
    /// Invalidating an identifier.
    Invalidate(Seq<char>),
}

impl CacheModel {
    /// The cache after `op`.
    pub open spec fn apply(self, op: CacheOp) -> CacheModel {
        match op {
            CacheOp::Lookup(id, now) => self.after_lookup(id, now),
            CacheOp::Insert(id, entry) => self.insert(id, entry),
            CacheOp::Invalidate(id) => self.invalidate(id),
        }
    }

    /// The cache after the operations `ops`, in their order.
    pub open spec fn apply_all(self, ops: Seq<CacheOp>) -> CacheModel
        decreases ops.len(),
    {
        if ops.len() == 0 {
            self
        } else {
            self.apply_all(ops.drop_last()).apply(ops.last())
        }
    }
}

/// Joining the queue keeps a cache well formed.
pub proof fn lemma_enqueue_wf(m: CacheModel, id: Seq<char>)
    requires
        0 < m.limit,
        m.queue.len() <= m.limit,
        m.entries.dom().finite(),
        forall|other: Seq<char>|
            #[trigger] m.entries.contains_key(other) && m.entries[other].invalid && other != id
                ==> m.queue.contains(other),
    ensures
        m.enqueue(id).wf(),
{
    let after = m.enqueue(id);
    assert(after.queue.last() == id);
    assert forall|other: Seq<char>|
        #[trigger] after.entries.contains_key(other)
            && after.entries[other].invalid implies after.queue.contains(other) by {
        if other != id {
            let i = choose|i: int| 0 <= i < m.queue.len() && m.queue[i] == other;
            if m.queue.len() >= m.limit {
                assert(after.queue[i - 1] == other);
            } else {
                assert(after.queue[i] == other);
            }
        }
    }
}

/// Storing an entry keeps a cache well formed.
pub proof fn lemma_insert_wf(m: CacheModel, id: Seq<char>, entry: CachedSession)
    requires
        m.wf(),
    ensures
        m.insert(id, entry).wf(),
{
    let stored = CacheModel {
        entries: m.entries.insert(id, entry),
        queue: m.queue,
        limit: m.limit,
    };
    if entry.invalid {
        lemma_enqueue_wf(stored, id);
    }
}

/// Invalidating an identifier keeps a cache well formed.
pub proof fn lemma_invalidate_wf(m: CacheModel, id: Seq<char>)
    requires
        m.wf(),
    ensures
        m.invalidate(id).wf(),
{
    let marked = CacheModel {
        entries: if m.entries.contains_key(id) {
            m.entries.insert(id, m.entries[id].marked_invalid())
        } else {
            m.entries
        },
        queue: m.queue,
        limit: m.limit,
    };
    lemma_enqueue_wf(marked, id);
}

/// A lookup keeps a cache well formed.
pub proof fn lemma_lookup_wf(m: CacheModel, id: Seq<char>, now: Timestamp)
    requires
        m.wf(),
    ensures
        m.after_lookup(id, now).wf(),
{
    if m.expires_on_lookup(id, now) {
        lemma_invalidate_wf(m, id);
    }
}

/// In a well-formed cache the entries that are marked invalid are never
/// more than the queue's limit, however many were stored.
pub proof fn lemma_invalid_entries_bounded(m: CacheModel)
    requires
        m.wf(),
    ensures
        m.invalid_ids().finite(),
        m.invalid_ids().len() <= m.queue.len(),
        m.invalid_ids().len() <= m.limit,
{
    let queued = m.queue.to_set();
    vstd::seq_lib::seq_to_set_is_finite(m.queue);
    m.queue.lemma_cardinality_of_set();
    assert(m.invalid_ids().subset_of(queued));
    vstd::set_lib::lemma_len_subset(m.invalid_ids(), queued);
}

/// Whatever is looked up, stored and invalidated in a cache that started
/// empty, and in whatever order: the entries that are marked invalid never
/// come to more than the queue's limit.
pub proof fn lemma_invalid_entries_stay_bounded(limit: nat, ops: Seq<CacheOp>)
    requires
        0 < limit,
    ensures
        CacheModel::empty(limit).apply_all(ops).wf(),
        CacheModel::empty(limit).apply_all(ops).limit == limit,
        CacheModel::empty(limit).apply_all(ops).invalid_ids().finite(),
        CacheModel::empty(limit).apply_all(ops).invalid_ids().len() <= limit,
    decreases ops.len(),
{
    let start = CacheModel::empty(limit);
    if ops.len() == 0 {
        assert(start.entries.dom() =~= Set::<Seq<char>>::empty());
    } else {
        lemma_invalid_entries_stay_bounded(limit, ops.drop_last());
        let before = start.apply_all(ops.drop_last());
        match ops.last() {
            CacheOp::Lookup(id, now) => lemma_lookup_wf(before, id, now),
            CacheOp::Insert(id, entry) => lemma_insert_wf(before, id, entry),
            CacheOp::Invalidate(id) => lemma_invalidate_wf(before, id),
        }
    }
    lemma_invalid_entries_bounded(start.apply_all(ops));
}

/// `op` stores no entry that counts as valid: it is a lookup, an
/// invalidation, or it stores an entry that is marked invalid.
pub open spec fn stores_no_live_entry(op: CacheOp) -> bool {
    op matches CacheOp::Insert(_, entry) ==> entry.invalid
}

/// Where only entries that are marked invalid are stored in a cache that
/// started empty, the whole map never comes to more entries than the queue's
/// limit, however many distinct identifiers are stored.
pub proof fn lemma_cache_of_invalid_entries_stays_bounded(limit: nat, ops: Seq<CacheOp>)
    requires
        0 < limit,
        forall|i: int| 0 <= i < ops.len() ==> stores_no_live_entry(#[trigger] ops[i]),
    ensures
        forall|id: Seq<char>|
            #[trigger] CacheModel::empty(limit).apply_all(ops).entries.contains_key(id)
                ==> CacheModel::empty(limit).apply_all(ops).entries[id].invalid,
        CacheModel::empty(limit).apply_all(ops).entries.dom().len() <= limit,
    decreases ops.len(),
{
    let after = CacheModel::empty(limit).apply_all(ops);
    if ops.len() > 0 {
        let earlier = ops.drop_last();
        assert forall|i: int| 0 <= i < earlier.len() implies stores_no_live_entry(
            #[trigger] earlier[i],
        ) by {
            assert(earlier[i] == ops[i]);
        }
        lemma_cache_of_invalid_entries_stays_bounded(limit, earlier);
        assert(stores_no_live_entry(ops.last()));
    }
    lemma_invalid_entries_stay_bounded(limit, ops);
    assert(after.entries.dom() =~= after.invalid_ids());
}

/// The cache of sessions: a concurrent map from identifier to entry, and the
/// bounded queue of the identifiers marked invalid.
pub struct SessionCache {
    entries: DashMap<String, CachedSession>,
    invalid: ConcurrentQueue<String>,
}

impl View for SessionCache {
    type V = CacheModel;

    closed spec fn view(&self) -> CacheModel {
        CacheModel {
            entries: cache_entries(self.entries),
            queue: queue_items(self.invalid),
            limit: queue_capacity(self.invalid),
        }
    }
}

impl SessionCache {
    /// The queue still takes identifiers.
    pub closed spec fn accepting(&self) -> bool {
        !queue_closed(self.invalid)
    }

    /// The cache is well formed and its queue takes identifiers.
    pub open spec fn wf(&self) -> bool {
        self@.wf() && self.accepting()
    }

    /// An empty cache whose queue holds up to `limit` identifiers.
    pub fn new(limit: usize) -> (cache: SessionCache)
        requires
            0 < limit <= MAX_QUEUE_LIMIT,
        ensures
            cache.wf(),
            cache@ == CacheModel::empty(limit as nat),
    {
        let cache = SessionCache { entries: map_new(), invalid: queue_bounded(limit) };
        assert(cache@.entries =~= Map::empty());
        cache
    }

    /// Adds `session_id` to the queue of invalidated identifiers. A full
    /// queue first gives up its oldest identifier, whose entry leaves the
    /// map.
    fn enqueue(&mut self, session_id: &str)
        requires
            0 < old(self)@.limit,
            old(self)@.queue.len() <= old(self)@.limit,
            old(self).accepting(),
        ensures
            final(self)@ == old(self)@.enqueue(session_id@),
            final(self).accepting(),
    {
        if queue_is_full(&self.invalid) {
            match queue_pop(&mut self.invalid) {
                Some(oldest) => {
                    map_remove(&mut self.entries, oldest.as_str());
                },
                None => {},
            }
        }
        let _ = queue_push(&mut self.invalid, session_id.to_owned());
    }

    /// Stores `entry` under `session_id`, over whatever was there. An entry
    /// that is marked invalid also joins the queue.
    pub fn insert(&mut self, session_id: String, entry: CachedSession)
        requires
            old(self).wf(),
        ensures
            final(self).wf(),
            final(self)@ == old(self)@.insert(session_id@, entry),
    {
        proof {
            lemma_insert_wf(self@, session_id@, entry);
        }
        let invalid = entry.invalid;
        map_insert(&mut self.entries, session_id.clone(), entry);
        if invalid {
            self.enqueue(session_id.as_str());
        }
    }

    /// Marks the entry under `session_id` invalid, if there is one, and adds
    /// the identifier to the queue.
    pub fn invalidate(&mut self, session_id: &str)
        requires
            old(self).wf(),
        ensures
            final(self).wf(),
            final(self)@ == old(self)@.invalidate(session_id@),
    {
        proof {
            lemma_invalidate_wf(self@, session_id@);
        }
        map_mark_invalid(&mut self.entries, session_id);
        self.enqueue(session_id);
    }

    /// Looks `session_id` up at `now`. A miss answers nothing. A hit answers
    /// whether the entry counts as valid; an entry that has run out without
    /// being marked invalid is invalidated on the way.
    pub fn lookup(&mut self, session_id: &str, now: &Timestamp) -> (answer: Option<bool>)
        requires
            old(self).wf(),
        ensures
            final(self).wf(),
            answer == old(self)@.lookup_answer(session_id@, *now),
            final(self)@ == old(self)@.after_lookup(session_id@, *now),
    {
        proof {
            lemma_lookup_wf(self@, session_id@, *now);
        }
        match map_get(&self.entries, session_id) {
            None => None,
            Some(entry) => {
                if entry.is_valid_at(now) {
                    Some(true)
                } else {
                    if !entry.invalid {
                        self.invalidate(session_id);
                    }
                    Some(false)
                }
            },
        }
    }

    /// The entry under `session_id`, if the cache holds one.
    pub fn get(&self, session_id: &str) -> (found: Option<CachedSession>)
        ensures
            found == if self@.entries.contains_key(session_id@) {
                Some(self@.entries[session_id@])
            } else {
                None
            },
    {
        map_get(&self.entries, session_id)
    }

    /// The number of entries in the cache.
    pub fn len(&self) -> (n: usize)
        ensures
            n == self@.entries.dom().len(),
    {
        map_len(&self.entries)
    }
}

} // verus!
