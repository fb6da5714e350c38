//! Request fingerprints: the key under which a rendered document is cached.

use std::collections::hash_map::DefaultHasher;
use std::hash::{Hash, Hasher};
use vstd::prelude::*;
use vstd::std_specs::hash::DefaultHasherAdditionalSpecFns;

verus! {

/// What hashing a string writes into a hasher: a sequence of byte strings that
/// depends on the text alone.
pub uninterp spec fn str_hash_writes(text: Seq<char>) -> Seq<Seq<u8>>;

/// std's `Hash::hash` for `str`, fed into a `DefaultHasher`: the hasher
/// receives, after what it had already received, the writes that belong to the
/// text. Verus is told only that they are the same for the same text.
#[verifier::external_body]
fn feed_str(hasher: &mut DefaultHasher, text: &str)
    ensures
        final(hasher)@ == old(hasher)@ + str_hash_writes(text@),
{
    text.hash(hasher);
}

/// The fingerprint of a target: the digest of a fresh default hasher that was
/// fed the target and nothing else.
pub open spec fn fingerprint_of(target: Seq<char>) -> u64 {
    DefaultHasher::spec_finish(str_hash_writes(target))
}

/// Computes the fingerprint of a target URL. Equal targets give equal
/// fingerprints; the value is cheap to compute and serves as the cache key.
pub fn hash_url(url: &str) -> (fingerprint: u64)
    ensures
        fingerprint == fingerprint_of(url@),
{
    let mut hasher = DefaultHasher::new();
    feed_str(&mut hasher, url);
    hasher.finish()
}

} // verus!
