//! The bounded least-recently-used store that backs the result cache.
//!
//! The store is `lru::LruCache`. Verus cannot read it, so this module says what
//! the few methods in use do, over two names: what the store holds, in order of
//! recency, and the limit it was made with. Nothing in this module is proved;
//! everything built on it is.

use vstd::prelude::*;

verus! {

#[verifier::external_type_specification]
#[verifier::external_body]
#[verifier::reject_recursive_types(K)]
#[verifier::reject_recursive_types(V)]
#[verifier::reject_recursive_types(S)]
pub struct ExLruCache<K, V, S>(lru::LruCache<K, V, S>);

#[verifier::external_type_specification]
#[verifier::external_body]
pub struct ExLruHasher(lru::DefaultHasher);

/// What the store holds: one `(fingerprint, document, created_at)` per entry,
/// the most recently used first, which is the order in which
/// `lru::LruCache::iter` walks it.
pub uninterp spec fn lru_entries(store: lru::LruCache<u64, (String, u64)>) -> Seq<
    (u64, Seq<char>, u64),
>;

/// The number of entries that the store was made to hold at most
/// (`lru::LruCache::cap`).
pub uninterp spec fn lru_limit(store: lru::LruCache<u64, (String, u64)>) -> nat;

/// One stored entry as contracts see it: `.0` is the fingerprint, `.1` the
/// document's text, `.2` the time at which it was stored.
pub type EntryView = (u64, Seq<char>, u64);

/// Some entry is stored under `fingerprint`.
pub open spec fn has_key(entries: Seq<EntryView>, fingerprint: u64) -> bool {
    exists|i: int| 0 <= i < entries.len() && (#[trigger] entries[i]).0 == fingerprint
}

/// The entries with the one at position `i` moved to the front, the order of
/// the others kept.
pub open spec fn moved_to_front(entries: Seq<EntryView>, i: int) -> Seq<EntryView> {
    seq![entries[i]] + entries.remove(i)
}

/// `lru::LruCache::new`: an empty store with the given limit. The call
/// allocates a table for `limit` entries at once, so the caller keeps `limit`
/// small enough for that.
#[verifier::external_body]
pub(crate) fn lru_new(limit: usize) -> (store: lru::LruCache<u64, (String, u64)>)
    requires
        1 <= limit <= crate::cache::MAX_CAPACITY,
    ensures
        lru_entries(store) == Seq::<EntryView>::empty(),
        lru_limit(store) == limit,
{
    lru::LruCache::new(std::num::NonZeroUsize::new(limit).unwrap())
}

/// `lru::LruCache::len`: the number of entries held.
#[verifier::external_body]
pub(crate) fn lru_len(store: &lru::LruCache<u64, (String, u64)>) -> (n: usize)
    ensures
        n == lru_entries(*store).len(),
{
    store.len()
}

/// `lru::LruCache::peek`, reduced to the entry's time: the time stored under
/// `fingerprint`, or `None` if nothing is stored under it. The order of recency
/// is not touched (the store is only read).
#[verifier::external_body]
pub(crate) fn lru_peek_created_at(
    store: &lru::LruCache<u64, (String, u64)>,
    fingerprint: u64,
) -> (created_at: Option<u64>)
    ensures
        match created_at {
            Some(t) => exists|i: int|
                0 <= i < lru_entries(*store).len() && (#[trigger] lru_entries(*store)[i]).0
                    == fingerprint && lru_entries(*store)[i].2 == t,
            None => !has_key(lru_entries(*store), fingerprint),
        },
{
    store.peek(&fingerprint).map(|entry| entry.1)
}

/// `lru::LruCache::get`, with the document copied out: if an entry is stored
/// under `fingerprint`, its document is returned and the entry becomes the most
/// recently used one; otherwise `None` is returned and nothing changes. The
/// call is taken never to unwind: it hashes an integer, relinks the entry and
/// copies a string, and a failed allocation ends the process.
#[verifier::external_body]
pub(crate) fn lru_get_document(
    store: &mut lru::LruCache<u64, (String, u64)>,
    fingerprint: u64,
) -> (document: Option<String>)
    ensures
        match document {
            Some(d) => exists|i: int|
                0 <= i < lru_entries(*old(store)).len() && (#[trigger] lru_entries(
                    *old(store),
                )[i]).0 == fingerprint && lru_entries(*old(store))[i].1 == d@ && lru_entries(
                    *final(store),
                ) == moved_to_front(lru_entries(*old(store)), i),
            None => !has_key(lru_entries(*old(store)), fingerprint) && lru_entries(*final(store))
                == lru_entries(*old(store)),
        },
        lru_limit(*final(store)) == lru_limit(*old(store)),
    no_unwind
{
    store.get(&fingerprint).map(|entry| entry.0.clone())
}

/// `lru::LruCache::put`: stores the entry as the most recently used one. An
/// entry already stored under `fingerprint` is replaced. Otherwise, if the
/// store is at its limit, the least recently used entry leaves to make room.
/// The call is taken never to unwind: it hashes an integer and relinks
/// entries, and a failed allocation ends the process.
#[verifier::external_body]
pub(crate) fn lru_put(
    store: &mut lru::LruCache<u64, (String, u64)>,
    fingerprint: u64,
    document: String,
    created_at: u64,
)
    ensures
        has_key(lru_entries(*old(store)), fingerprint) ==> exists|i: int|
            0 <= i < lru_entries(*old(store)).len() && (#[trigger] lru_entries(*old(store))[i]).0
                == fingerprint && lru_entries(*final(store)) == seq![
                (fingerprint, document@, created_at),
            ] + lru_entries(*old(store)).remove(i),
        !has_key(lru_entries(*old(store)), fingerprint) && lru_entries(*old(store)).len()
            < lru_limit(*old(store)) ==> lru_entries(*final(store)) == seq![
            (fingerprint, document@, created_at),
        ] + lru_entries(*old(store)),
        !has_key(lru_entries(*old(store)), fingerprint) && lru_entries(*old(store)).len()
            == lru_limit(*old(store)) ==> lru_entries(*final(store)) == seq![
            (fingerprint, document@, created_at),
        ] + lru_entries(*old(store)).drop_last(),
        lru_limit(*final(store)) == lru_limit(*old(store)),
    no_unwind
{
    store.put(fingerprint, (document, created_at));
}

} // verus!
