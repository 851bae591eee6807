//! The bounded least-recently-used cache that a lane keeps of hop counts.
//!
//! The cache itself is `lru::LruCache`. Its keys are paths of `u16`, so that
//! hashing and comparing them is that of std.

use vstd::prelude::*;

verus! {

#[verifier::external_type_specification]
#[verifier::external_body]
#[verifier::reject_recursive_types(K)]
#[verifier::reject_recursive_types(V)]
#[verifier::reject_recursive_types(S)]
pub struct ExLruCache<K, V, S>(lru::LruCache<K, V, S>);

#[verifier::external_type_specification]
#[verifier::external_body]
pub struct ExDefaultHasher(lru::DefaultHasher);

/// What a hop cache holds: key and hop count of each entry, the most recently
/// used entry first.
pub uninterp spec fn cache_entries(cache: lru::LruCache<Vec<u16>, usize>) -> Seq<(Seq<u16>, usize)>;

/// The number of entries that a hop cache was made to hold.
pub uninterp spec fn cache_limit(cache: lru::LruCache<Vec<u16>, usize>) -> nat;

/// The largest limit that a hop cache is made with.
pub const MAX_CACHE_LIMIT: usize = 1048576;

/// The place of the first entry under `key`, if there is one.
pub open spec fn find_entry(entries: Seq<(Seq<u16>, usize)>, key: Seq<u16>) -> Option<int>
    decreases entries.len(),
{
    if entries.len() == 0 {
        None
    } else if entries[0].0 == key {
        Some(0)
    } else {
        match find_entry(entries.drop_first(), key) {
            Some(i) => Some(i + 1),
            None => None,
        }
    }
}

/// The hop count that is cached under `key`, if there is one.
pub open spec fn cached_hops(entries: Seq<(Seq<u16>, usize)>, key: Seq<u16>) -> Option<usize> {
    match find_entry(entries, key) {
        Some(i) => Some(entries[i].1),
        None => None,
    }
}

/// The entries after a lookup of `key`: an entry that was found moves to the
/// front.
pub open spec fn entries_after_get(entries: Seq<(Seq<u16>, usize)>, key: Seq<u16>) -> Seq<
    (Seq<u16>, usize),
> {
    match find_entry(entries, key) {
        Some(i) => seq![entries[i]] + entries.remove(i),
        None => entries,
    }
}

/// The entries after `hops` was put under `key` into a cache of the given
/// limit: the entry stands at the front; an older entry under the key is
/// gone; where the cache was full, the least recently used entry is gone. A
/// cache of limit 0 takes nothing.
pub open spec fn entries_after_put(
    entries: Seq<(Seq<u16>, usize)>,
    limit: nat,
    key: Seq<u16>,
    hops: usize,
) -> Seq<(Seq<u16>, usize)> {
    match find_entry(entries, key) {
        Some(i) => seq![(key, hops)] + entries.remove(i),
        None => if limit == 0 {
            entries
        } else if entries.len() == limit {
            seq![(key, hops)] + entries.drop_last()
        } else {
            seq![(key, hops)] + entries
        },
    }
}

/// `LruCache::new` of the lru crate: an empty cache that holds at most
/// `limit` entries. The crate allocates room for `limit` entries at once,
/// hence the bound.
#[verifier::external_body]
pub(crate) fn cache_new(limit: usize) -> (cache: lru::LruCache<Vec<u16>, usize>)
    requires
        limit <= MAX_CACHE_LIMIT,
    ensures
        cache_entries(cache) == Seq::<(Seq<u16>, usize)>::empty(),
        cache_limit(cache) == limit,
{
    lru::LruCache::new(limit)
}

/// `LruCache::put` of the lru crate. An entry under the key is replaced and
/// its old value returned; otherwise the entry is added, in a full cache in
/// place of the least recently used one, and in a cache of limit 0 not at
/// all. The entry put is then the most recently used.
#[verifier::external_body]
pub(crate) fn cache_put(cache: &mut lru::LruCache<Vec<u16>, usize>, key: Vec<u16>, hops: usize) -> (previous:
    Option<usize>)
    ensures
        cache_limit(*final(cache)) == cache_limit(*old(cache)),
        cache_entries(*final(cache)) == entries_after_put(
            cache_entries(*old(cache)),
            cache_limit(*old(cache)),
            key@,
            hops,
        ),
        previous == cached_hops(cache_entries(*old(cache)), key@),
{
    cache.put(key, hops)
}

/// `LruCache::get` of the lru crate: the value under the key, if there is
/// one; the entry found becomes the most recently used.
#[verifier::external_body]
pub(crate) fn cache_get(cache: &mut lru::LruCache<Vec<u16>, usize>, key: &Vec<u16>) -> (hops: Option<
    usize,
>)
    ensures
        cache_limit(*final(cache)) == cache_limit(*old(cache)),
        cache_entries(*final(cache)) == entries_after_get(cache_entries(*old(cache)), key@),
        hops == cached_hops(cache_entries(*old(cache)), key@),
{
    cache.get(key).copied()
}

/// After a put into a cache that takes entries, the key is found with the
/// hop count that was put.
pub proof fn lemma_put_then_cached(
    entries: Seq<(Seq<u16>, usize)>,
    limit: nat,
    key: Seq<u16>,
    hops: usize,
)
    requires
        limit > 0,
    ensures
        cached_hops(entries_after_put(entries, limit, key, hops), key) == Some(hops),
{
    let after = entries_after_put(entries, limit, key, hops);
    assert(after.len() > 0 && after[0] == (key, hops)) by {
        match find_entry(entries, key) {
            Some(i) => {},
            None => {},
        }
    }
    assert(find_entry(after, key) == Some(0int));
}

/// A lookup changes the order of the entries only: every key is cached
/// under the hop count it had.
pub proof fn lemma_get_keeps_hops(entries: Seq<(Seq<u16>, usize)>, key: Seq<u16>, other: Seq<u16>)
    ensures
        cached_hops(entries_after_get(entries, key), other) == cached_hops(entries, other),
{
    match find_entry(entries, key) {
        None => {},
        Some(i) => {
            lemma_find_entry_bounds(entries, key);
            let after = seq![entries[i]] + entries.remove(i);
            lemma_cached_hops_step(after, other);
            if other == key {
                assert(after[0] == entries[i]);
            } else {
                assert(after[0].0 != other);
                assert(after.drop_first() =~= entries.remove(i));
                lemma_remove_keeps_others(entries, i, other);
            }
        },
    }
}

/// The hop count under a key is that of the first entry where the key is
/// the first entry's, and that of the rest otherwise.
pub proof fn lemma_cached_hops_step(entries: Seq<(Seq<u16>, usize)>, key: Seq<u16>)
    requires
        entries.len() > 0,
    ensures
        cached_hops(entries, key) == if entries[0].0 == key {
            Some(entries[0].1)
        } else {
            cached_hops(entries.drop_first(), key)
        },
{
    if entries[0].0 != key {
        let rest = entries.drop_first();
        lemma_find_entry_bounds(rest, key);
        match find_entry(rest, key) {
            Some(i) => {
                assert(rest[i] == entries[i + 1]);
            },
            None => {},
        }
    }
}

/// What `find_entry` finds is an entry under the key, and no entry before it
/// is one.
pub proof fn lemma_find_entry_bounds(entries: Seq<(Seq<u16>, usize)>, key: Seq<u16>)
    ensures
        match find_entry(entries, key) {
            Some(i) => 0 <= i < entries.len() && entries[i].0 == key && forall|j: int|
                0 <= j < i ==> entries[j].0 != key,
            None => forall|j: int| 0 <= j < entries.len() ==> entries[j].0 != key,
        },
    decreases entries.len(),
{
    if entries.len() > 0 && entries[0].0 != key {
        let rest = entries.drop_first();
        lemma_find_entry_bounds(rest, key);
        match find_entry(rest, key) {
            Some(i) => {
                assert forall|j: int| 0 <= j < i + 1 implies entries[j].0 != key by {
                    if j > 0 {
                        assert(rest[j - 1] == entries[j]);
                    }
                }
            },
            None => {
                assert forall|j: int| 0 <= j < entries.len() implies entries[j].0 != key by {
                    if j > 0 {
                        assert(rest[j - 1] == entries[j]);
                    }
                }
            },
        }
    }
}

/// Taking out an entry leaves the hop counts of all other keys as they were.
pub proof fn lemma_remove_keeps_others(entries: Seq<(Seq<u16>, usize)>, i: int, other: Seq<u16>)
    requires
        0 <= i < entries.len(),
        entries[i].0 != other,
    ensures
        cached_hops(entries.remove(i), other) == cached_hops(entries, other),
    decreases entries.len(),
{
    lemma_cached_hops_step(entries, other);
    if i == 0 {
        assert(entries.remove(0) =~= entries.drop_first());
    } else {
        let removed = entries.remove(i);
        assert(removed[0] == entries[0]);
        lemma_cached_hops_step(removed, other);
        if entries[0].0 != other {
            assert(removed.drop_first() =~= entries.drop_first().remove(i - 1));
            lemma_remove_keeps_others(entries.drop_first(), i - 1, other);
        }
    }
}

} // verus!
