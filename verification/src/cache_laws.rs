//! What follows from the cache's contract: how long a document is served, and
//! which entry leaves when the cache is full.

use vstd::prelude::*;
use crate::cache::{
    distinct_keys, index_of, is_fresh, lemma_index_of_unique, lemma_insert_wf,
    lemma_moved_to_front_wf, CacheView,
};
use crate::store::{has_key, EntryView};

verus! {

/// A document stored at `stored_at` is served at `now` exactly while its age
/// is below the time-to-live: from `stored_at` up to, but not including,
/// `stored_at + ttl`. At `stored_at + ttl` and later the lookup misses.
pub proof fn lemma_served_for_ttl(
    cache: CacheView,
    fingerprint: u64,
    document: Seq<char>,
    stored_at: u64,
    now: u64,
)
    requires
        cache.wf(),
    ensures
        is_fresh(stored_at, now, cache.ttl) ==> cache.insert(
            fingerprint,
            document,
            stored_at,
        ).lookup(fingerprint, now) == Some(document),
        !is_fresh(stored_at, now, cache.ttl) ==> cache.insert(
            fingerprint,
            document,
            stored_at,
        ).lookup(fingerprint, now) is None,
        stored_at <= now < stored_at + cache.ttl ==> cache.insert(
            fingerprint,
            document,
            stored_at,
        ).lookup(fingerprint, now) == Some(document),
        now >= stored_at + cache.ttl ==> cache.insert(fingerprint, document, stored_at).lookup(
            fingerprint,
            now,
        ) is None,
{
    lemma_insert_wf(cache, fingerprint, document, stored_at);
    lemma_index_of_unique(
        cache.insert(fingerprint, document, stored_at).entries,
        fingerprint,
        0,
    );
}

/// With a time-to-live of zero every entry is stale at once: no lookup ever
/// hits, whatever is stored.
pub proof fn lemma_zero_ttl_never_hits(cache: CacheView, fingerprint: u64, now: u64)
    requires
        cache.ttl == 0,
    ensures
        cache.lookup(fingerprint, now) is None,
        cache.after_lookup(fingerprint, now) == cache,
{
}

/// A lookup that misses, be it for want of an entry or for a stale one,
/// leaves the cache exactly as it was.
pub proof fn lemma_miss_changes_nothing(cache: CacheView, fingerprint: u64, now: u64)
    requires
        cache.lookup(fingerprint, now) is None,
    ensures
        cache.after_lookup(fingerprint, now) == cache,
{
}

/// Storing a new fingerprint in a full cache evicts exactly the least recently
/// used entry: the last one. All others stay, in their order, behind the new
/// entry.
pub proof fn lemma_overflow_evicts_lru(
    cache: CacheView,
    fingerprint: u64,
    document: Seq<char>,
    now: u64,
)
    requires
        cache.wf(),
        cache.entries.len() == cache.capacity,
        !has_key(cache.entries, fingerprint),
    ensures
        cache.insert(fingerprint, document, now).entries == seq![(fingerprint, document, now)]
            + cache.entries.drop_last(),
        cache.insert(fingerprint, document, now).entries.len() == cache.capacity,
        !has_key(cache.insert(fingerprint, document, now).entries, cache.entries.last().0),
        forall|other: u64|
            other != cache.entries.last().0 && has_key(cache.entries, other) ==> has_key(
                cache.insert(fingerprint, document, now).entries,
                other,
            ),
{
    let entries = cache.entries;
    let after = cache.insert(fingerprint, document, now).entries;
    lemma_insert_wf(cache, fingerprint, document, now);
    assert forall|other: u64|
        other != entries.last().0 && has_key(entries, other) implies has_key(after, other) by {
        // An entry that is not the last one moves one place back.
        let i = choose|i: int| 0 <= i < entries.len() && (#[trigger] entries[i]).0 == other;
        assert(after[i + 1] == entries[i]);
    }
}

/// Storing a fingerprint in a cache that has room, or that already holds it,
/// evicts nothing: every other fingerprint stays.
pub proof fn lemma_insert_with_room_keeps_all(
    cache: CacheView,
    fingerprint: u64,
    document: Seq<char>,
    now: u64,
    other: u64,
)
    requires
        cache.wf(),
        has_key(cache.entries, fingerprint) || cache.entries.len() < cache.capacity,
        has_key(cache.entries, other),
    ensures
        has_key(cache.insert(fingerprint, document, now).entries, other),
{
    let entries = cache.entries;
    let after = cache.insert(fingerprint, document, now).entries;
    let i = choose|i: int| 0 <= i < entries.len() && (#[trigger] entries[i]).0 == other;
    if other == fingerprint {
        assert(after[0].0 == other);
    } else if has_key(entries, fingerprint) {
        let j = index_of(entries, fingerprint);
        if i < j {
            assert(after[i + 1] == entries[i]);
        } else {
            assert(after[i] == entries[i]);
        }
    } else {
        assert(after[i + 1] == entries[i]);
    }
}

/// The cache after the entries of `items` were stored one after the other,
/// `items[0]` first.
pub open spec fn insert_all(cache: CacheView, items: Seq<EntryView>) -> CacheView
    decreases items.len(),
{
    if items.len() == 0 {
        cache
    } else {
        insert_all(cache, items.drop_last()).insert(
            items.last().0,
            items.last().1,
            items.last().2,
        )
    }
}

/// Distinct fingerprints stored in an empty cache that has room for all of
/// them are all held, the one stored last in front.
pub proof fn lemma_fill_keeps_all(cache: CacheView, items: Seq<EntryView>)
    requires
        cache.wf(),
        cache.entries.len() == 0,
        distinct_keys(items),
        items.len() <= cache.capacity,
    ensures
        insert_all(cache, items).wf(),
        insert_all(cache, items).capacity == cache.capacity,
        insert_all(cache, items).entries.len() == items.len(),
        forall|j: int|
            0 <= j < items.len() ==> (#[trigger] insert_all(cache, items).entries[j])
                == items[items.len() - 1 - j],
    decreases items.len(),
{
    if items.len() > 0 {
        let head = items.drop_last();
        let last = items.last();
        lemma_fill_keeps_all(cache, head);
        lemma_insert_wf(insert_all(cache, head), last.0, last.1, last.2);
    }
}

/// Storing one more distinct fingerprint than the capacity in an empty cache
/// evicts exactly the one stored first: the cache ends up full, holding all the
/// others, the one stored last in front.
pub proof fn lemma_one_too_many_evicts_first(cache: CacheView, items: Seq<EntryView>)
    requires
        cache.wf(),
        cache.entries.len() == 0,
        distinct_keys(items),
        items.len() == cache.capacity + 1,
    ensures
        insert_all(cache, items).entries.len() == cache.capacity,
        !has_key(insert_all(cache, items).entries, items[0].0),
        forall|j: int|
            0 <= j < cache.capacity ==> (#[trigger] insert_all(cache, items).entries[j])
                == items[cache.capacity - j],
{
    let head = items.drop_last();
    let last = items.last();
    lemma_fill_keeps_all(cache, head);
    lemma_overflow_evicts_lru(insert_all(cache, head), last.0, last.1, last.2);
}

/// A hit protects its entry. After a lookup hit on `fingerprint` in a cache of
/// two or more entries, storing another fingerprint does not evict it. If the
/// cache is full and the other fingerprint is new, the entry that leaves is the
/// least recently used among those that were not looked up.
pub proof fn lemma_hit_protects(
    cache: CacheView,
    fingerprint: u64,
    now: u64,
    other: u64,
    document: Seq<char>,
    later: u64,
)
    requires
        cache.wf(),
        cache.entries.len() >= 2,
        cache.hits(fingerprint, now),
        other != fingerprint,
    ensures
        has_key(
            cache.after_lookup(fingerprint, now).insert(other, document, later).entries,
            fingerprint,
        ),
        !has_key(cache.entries, other) && cache.entries.len() == cache.capacity
            ==> cache.after_lookup(fingerprint, now).insert(other, document, later).entries
            == seq![(other, document, later), cache.entries[index_of(cache.entries, fingerprint)]]
            + cache.entries.remove(index_of(cache.entries, fingerprint)).drop_last(),
{
    let i = index_of(cache.entries, fingerprint);
    let touched = cache.after_lookup(fingerprint, now);
    lemma_moved_to_front_wf(cache.entries, i);
    lemma_front_survives(touched, other, document, later);
    if !has_key(cache.entries, other) && cache.entries.len() == cache.capacity {
        // The lookup moved entries about and brought no new fingerprint in.
        assert(!has_key(touched.entries, other));
        assert(touched.insert(other, document, later).entries =~= seq![
            (other, document, later),
            cache.entries[i],
        ] + cache.entries.remove(i).drop_last());
    }
}

/// Storing a document anew protects its entry in the same way: after a store
/// under `fingerprint` in a cache with a capacity of two or more, storing
/// another fingerprint does not evict it.
pub proof fn lemma_reinsert_protects(
    cache: CacheView,
    fingerprint: u64,
    first: Seq<char>,
    now: u64,
    other: u64,
    second: Seq<char>,
    later: u64,
)
    requires
        cache.wf(),
        cache.capacity >= 2,
        other != fingerprint,
    ensures
        has_key(
            cache.insert(fingerprint, first, now).insert(other, second, later).entries,
            fingerprint,
        ),
{
    let stored = cache.insert(fingerprint, first, now);
    lemma_insert_wf(cache, fingerprint, first, now);
    if stored.entries.len() >= 2 {
        lemma_front_survives(stored, other, second, later);
    } else {
        // The entry is alone in a cache with room for two: it moves one place
        // back.
        assert(stored.insert(other, second, later).entries[1] == stored.entries[0]);
    }
}

/// The most recently used of two or more entries survives the storing of
/// another fingerprint.
proof fn lemma_front_survives(cache: CacheView, other: u64, document: Seq<char>, now: u64)
    requires
        cache.wf(),
        cache.entries.len() >= 2,
        cache.entries[0].0 != other,
    ensures
        has_key(cache.insert(other, document, now).entries, cache.entries[0].0),
{
    // Whatever leaves, the front entry moves one place back.
    assert(cache.insert(other, document, now).entries[1] == cache.entries[0]);
}

} // verus!
