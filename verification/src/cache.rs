//! The result cache: rendered documents by request fingerprint, each valid for
//! a time-to-live, the least recently used one evicted when the cache is full.
//!
//! Time is a `u64` count of ticks on a clock of the caller's choosing; the
//! time-to-live is measured in the same ticks. The cache never reads a clock
//! itself: every operation is told what time it is.

use vstd::prelude::*;
use crate::store::{
    has_key, lru_entries, lru_get_document, lru_len, lru_limit, lru_new, lru_peek_created_at,
    lru_put, moved_to_front, EntryView,
};

verus! {

/// The largest capacity a cache can be made with. The backing store allocates
/// its table for the whole capacity up front.
pub const MAX_CAPACITY: usize = 1_048_576;

/// The age of an entry stored at `created_at` when the clock shows `now`. A
/// clock that shows less than it did when the entry was stored gives age zero.
pub open spec fn age(created_at: u64, now: u64) -> nat {
    if now >= created_at {
        (now - created_at) as nat
    } else {
        0
    }
}

/// An entry may be served as long as its age is below the time-to-live.
pub open spec fn is_fresh(created_at: u64, now: u64, ttl: u64) -> bool {
    age(created_at, now) < ttl
}

/// No two entries share a fingerprint.
pub open spec fn distinct_keys(entries: Seq<EntryView>) -> bool {
    forall|i: int, j: int|
        0 <= i < j < entries.len() ==> (#[trigger] entries[i]).0 != (#[trigger] entries[j]).0
}

/// The position of the entry stored under `fingerprint`, where there is one.
pub open spec fn index_of(entries: Seq<EntryView>, fingerprint: u64) -> int {
    choose|i: int| 0 <= i < entries.len() && (#[trigger] entries[i]).0 == fingerprint
}

/// What a cache is, mathematically: its entries from the most to the least
/// recently used, and the two fixed settings.
pub struct CacheView {
    pub entries: Seq<EntryView>,
    pub capacity: nat,
    pub ttl: u64,
}

impl CacheView {
    /// The cache holds at most `capacity` entries, at most one per
    /// fingerprint.
    pub open spec fn wf(self) -> bool {
        &&& 1 <= self.capacity <= MAX_CAPACITY
        &&& self.entries.len() <= self.capacity
        &&& distinct_keys(self.entries)
    }

    /// An entry for `fingerprint` exists and is still fresh at `now`.
    pub open spec fn hits(self, fingerprint: u64, now: u64) -> bool {
        has_key(self.entries, fingerprint) && is_fresh(
            self.entries[index_of(self.entries, fingerprint)].2,
            now,
            self.ttl,
        )
    }

    /// What a lookup at `now` answers: the document on a hit, `None` on a miss.
    /// An entry that is present but stale is a miss.
    pub open spec fn lookup(self, fingerprint: u64, now: u64) -> Option<Seq<char>> {
        if self.hits(fingerprint, now) {
            Some(self.entries[index_of(self.entries, fingerprint)].1)
        } else {
            None
        }
    }

    /// The cache after a lookup at `now`: a hit makes its entry the most
    /// recently used one, a miss changes nothing (a stale entry stays where it
    /// is).
    pub open spec fn after_lookup(self, fingerprint: u64, now: u64) -> CacheView {
        if self.hits(fingerprint, now) {
            CacheView {
                entries: moved_to_front(self.entries, index_of(self.entries, fingerprint)),
                ..self
            }
        } else {
            self
        }
    }

    /// The entries that stay when room is made for `fingerprint`: an entry
    /// under the same fingerprint leaves; failing that, the least recently used
    /// entry leaves if the cache is full.
    pub open spec fn survivors(self, fingerprint: u64) -> Seq<EntryView> {
        if has_key(self.entries, fingerprint) {
            self.entries.remove(index_of(self.entries, fingerprint))
        } else if self.entries.len() >= self.capacity {
            self.entries.drop_last()
        } else {
            self.entries
        }
    }

    /// The cache after `document` was stored under `fingerprint` at `now`: the
    /// new entry is the most recently used one, in front of the survivors.
    pub open spec fn insert(self, fingerprint: u64, document: Seq<char>, now: u64) -> CacheView {
        CacheView {
            entries: seq![(fingerprint, document, now)] + self.survivors(fingerprint),
            ..self
        }
    }
}

/// With distinct fingerprints, the entry under a fingerprint is found at the
/// one position that holds it.
pub proof fn lemma_index_of_unique(entries: Seq<EntryView>, fingerprint: u64, i: int)
    requires
        distinct_keys(entries),
        0 <= i < entries.len(),
        entries[i].0 == fingerprint,
    ensures
        has_key(entries, fingerprint),
        index_of(entries, fingerprint) == i,
{
}

/// Moving an entry to the front keeps the number of entries and their
/// fingerprints distinct.
pub proof fn lemma_moved_to_front_wf(entries: Seq<EntryView>, i: int)
    requires
        distinct_keys(entries),
        0 <= i < entries.len(),
    ensures
        moved_to_front(entries, i).len() == entries.len(),
        distinct_keys(moved_to_front(entries, i)),
{
}

/// Storing an entry keeps the cache well-formed: the size stays within the
/// capacity and the fingerprints stay distinct.
pub proof fn lemma_insert_wf(cache: CacheView, fingerprint: u64, document: Seq<char>, now: u64)
    requires
        cache.wf(),
    ensures
        cache.insert(fingerprint, document, now).wf(),
        !has_key(cache.survivors(fingerprint), fingerprint),
{
}

/// Time-bounded, capacity-bounded cache of rendered documents.
pub struct ResultCache {
    store: lru::LruCache<u64, (String, u64)>,
    capacity: usize,
    ttl: u64,
}

impl View for ResultCache {
    type V = CacheView;

    closed spec fn view(&self) -> CacheView {
        CacheView {
            entries: lru_entries(self.store),
            capacity: self.capacity as nat,
            ttl: self.ttl,
        }
    }
}

impl ResultCache {
    /// The store was made with this cache's capacity.
    pub closed spec fn store_fits(self) -> bool {
        lru_limit(self.store) == self.capacity
    }

    /// Holds of every cache at all times: it is within its capacity, with at
    /// most one entry per fingerprint.
    #[verifier::type_invariant]
    pub open spec fn inv(self) -> bool {
        self.store_fits() && self@.wf()
    }

    /// An empty cache for at most `capacity` documents, each served for `ttl`
    /// ticks after it was stored. A capacity of zero, or one above
    /// [`MAX_CAPACITY`], is refused. A `ttl` of zero is accepted: such a cache
    /// stores documents and never serves one.
    pub fn new(capacity: usize, ttl: u64) -> (cache: Option<ResultCache>)
        ensures
            cache is Some <==> 1 <= capacity <= MAX_CAPACITY,
            cache matches Some(c) ==> c@ == (CacheView {
                entries: Seq::<EntryView>::empty(),
                capacity: capacity as nat,
                ttl,
            }) && c@.wf(),
    {
        if capacity == 0 || capacity > MAX_CAPACITY {
            None
        } else {
            let store = lru_new(capacity);
            Some(ResultCache { store, capacity, ttl })
        }
    }

    /// Looks `fingerprint` up at time `now`. A hit returns the stored document
    /// and counts as a use of the entry; a stale entry is reported as a miss
    /// and is neither used nor removed.
    pub fn lookup(&mut self, fingerprint: u64, now: u64) -> (document: Option<String>)
        ensures
            match document {
                Some(d) => old(self)@.lookup(fingerprint, now) == Some(d@),
                None => old(self)@.lookup(fingerprint, now) is None,
            },
            final(self)@ == old(self)@.after_lookup(fingerprint, now),
            final(self)@.wf(),
    {
        proof {
            use_type_invariant(&*self);
        }
        let ghost before = self@;
        match lru_peek_created_at(&self.store, fingerprint) {
            None => None,
            Some(created_at) => {
                proof {
                    let i = choose|i: int|
                        0 <= i < before.entries.len() && (#[trigger] before.entries[i]).0
                            == fingerprint && before.entries[i].2 == created_at;
                    lemma_index_of_unique(before.entries, fingerprint, i);
                }
                let age: u64 = if now >= created_at {
                    now - created_at
                } else {
                    0
                };
                if age < self.ttl {
                    let document = lru_get_document(&mut self.store, fingerprint);
                    proof {
                        if document is Some {
                            let d = document->0;
                            let i = choose|i: int|
                                0 <= i < before.entries.len() && (#[trigger] before.entries[i]).0
                                    == fingerprint && before.entries[i].1 == d@ && lru_entries(
                                    self.store,
                                ) == moved_to_front(before.entries, i);
                            lemma_index_of_unique(before.entries, fingerprint, i);
                            lemma_moved_to_front_wf(before.entries, i);
                        }
                    }
                    document
                } else {
                    None
                }
            },
        }
    }

    /// Stores `document` under `fingerprint` with creation time `now`,
    /// replacing what was stored under it, and makes it the most recently used
    /// entry. If that would exceed the capacity, the least recently used entry
    /// is evicted.
    pub fn insert(&mut self, fingerprint: u64, document: String, now: u64)
        ensures
            final(self)@ == old(self)@.insert(fingerprint, document@, now),
            final(self)@.wf(),
    {
        proof {
            use_type_invariant(&*self);
        }
        let ghost before = self@;
        let ghost text = document@;
        lru_put(&mut self.store, fingerprint, document, now);
        proof {
            if has_key(before.entries, fingerprint) {
                let i = choose|i: int|
                    0 <= i < before.entries.len() && (#[trigger] before.entries[i]).0
                        == fingerprint && lru_entries(self.store) == seq![(fingerprint, text, now)]
                        + before.entries.remove(i);
                lemma_index_of_unique(before.entries, fingerprint, i);
            }
            lemma_insert_wf(before, fingerprint, text, now);
        }
    }

    /// The number of entries held, stale ones included.
    pub fn len(&self) -> (n: usize)
        ensures
            n == self@.entries.len(),
            self@.wf(),
    {
        proof {
            use_type_invariant(self);
        }
        lru_len(&self.store)
    }

    /// The configured capacity.
    pub fn capacity(&self) -> (n: usize)
        ensures
            n == self@.capacity,
            self@.wf(),
    {
        proof {
            use_type_invariant(self);
        }
        self.capacity
    }

    /// The configured time-to-live, in ticks.
    pub fn ttl(&self) -> (t: u64)
        ensures
            t == self@.ttl,
    {
        self.ttl
    }
}

} // verus!
