//! Which digests the remote store holds, remembered for a while.
use vstd::prelude::*;
use vstd::string::*;

use crate::digest::{DigestValue, TDigest};
use crate::duration::{Duration, NANOS_PER_SEC};
use crate::reattach::span_between;

verus! {

/// How many digests are remembered.
pub const FIND_MISSING_CACHE_CAPACITY: usize = 500_000;

/// How long what is remembered is trusted, in seconds.
pub const FIND_MISSING_CACHE_TTL_SECS: u64 = 43_200;

/// Whether the remote store holds a digest.
#[derive(Clone, Copy, Debug, PartialEq, Eq, Structural)]
pub enum DigestRemoteState {
    ExistsOnRemote,
    Missing,
}

/// `lru::LruCache`, whose values are opaque here.
#[verifier::external_type_specification]
#[verifier::external_body]
#[verifier::reject_recursive_types(K)]
#[verifier::reject_recursive_types(V)]
#[verifier::reject_recursive_types(S)]
pub struct ExLruCache<K, V, S>(lru::LruCache<K, V, S>);

/// `lru::DefaultHasher`, with which a cache finds its entries.
#[verifier::external_type_specification]
#[verifier::external_body]
pub struct ExDefaultHasher(lru::DefaultHasher);

/// What a cache holds, most recently used first: digests, and whether the remote
/// store holds them.
pub uninterp spec fn cache_entries(cache: lru::LruCache<(String, i64), bool>) -> Seq<
    (DigestValue, bool),
>;

/// How many entries a cache holds at most.
pub uninterp spec fn cache_capacity(cache: lru::LruCache<(String, i64), bool>) -> nat;

/// What is said of `key`, if anything is.
pub open spec fn lookup(entries: Seq<(DigestValue, bool)>, key: DigestValue) -> Option<bool>
    decreases entries.len(),
{
    if entries.len() == 0 {
        None
    } else if entries[0].0 == key {
        Some(entries[0].1)
    } else {
        lookup(entries.drop_first(), key)
    }
}

/// The entries but for that of `key`.
pub open spec fn without(entries: Seq<(DigestValue, bool)>, key: DigestValue) -> Seq<
    (DigestValue, bool),
>
    decreases entries.len(),
{
    if entries.len() == 0 {
        entries
    } else if entries[0].0 == key {
        without(entries.drop_first(), key)
    } else {
        seq![entries[0]] + without(entries.drop_first(), key)
    }
}

/// The entries after `key` was looked up: its entry, if it has one, comes first.
pub open spec fn promoted(entries: Seq<(DigestValue, bool)>, key: DigestValue) -> Seq<
    (DigestValue, bool),
> {
    match lookup(entries, key) {
        Some(value) => seq![(key, value)] + without(entries, key),
        None => entries,
    }
}

/// The entries after `value` was put under `key`: it comes first, in place of an
/// earlier entry of the key; where it is new and the cache is full, the entry that
/// was not used for longest goes.
pub open spec fn stored(
    entries: Seq<(DigestValue, bool)>,
    capacity: nat,
    key: DigestValue,
    value: bool,
) -> Seq<(DigestValue, bool)> {
    if lookup(entries, key) is Some {
        seq![(key, value)] + without(entries, key)
    } else if entries.len() == capacity {
        seq![(key, value)] + entries.drop_last()
    } else {
        seq![(key, value)] + entries
    }
}

/// No digest has two entries.
pub open spec fn is_distinct(entries: Seq<(DigestValue, bool)>) -> bool {
    forall|i: int, j: int|
        0 <= i < j < entries.len() ==> (#[trigger] entries[i]).0 != (#[trigger] entries[j]).0
}

/// `lru::LruCache::new`: an empty cache of the given capacity.
#[verifier::external_body]
fn new_cache(capacity: usize) -> (cache: lru::LruCache<(String, i64), bool>)
    requires
        0 < capacity <= FIND_MISSING_CACHE_CAPACITY,
    ensures
        cache_entries(cache).len() == 0,
        cache_capacity(cache) == capacity,
{
    lru::LruCache::new(std::num::NonZeroUsize::new(capacity).unwrap())
}

/// `lru::LruCache::get`: the value under a key, whose entry becomes the most recent
/// one.
#[verifier::external_body]
fn cache_get(cache: &mut lru::LruCache<(String, i64), bool>, key: &(String, i64)) -> (value: Option<
    bool,
>)
    requires
        is_distinct(cache_entries(*old(cache))),
    ensures
        value == lookup(cache_entries(*old(cache)), (key.0@, key.1)),
        cache_entries(*final(cache)) == promoted(cache_entries(*old(cache)), (key.0@, key.1)),
        cache_capacity(*final(cache)) == cache_capacity(*old(cache)),
{
    cache.get(key).copied()
}

/// `lru::LruCache::put`: stores a value under a key as the most recent entry. The
/// value that it hands back is not used.
#[verifier::external_body]
fn cache_put(cache: &mut lru::LruCache<(String, i64), bool>, key: (String, i64), value: bool)
    requires
        is_distinct(cache_entries(*old(cache))),
        cache_entries(*old(cache)).len() <= cache_capacity(*old(cache)),
        cache_capacity(*old(cache)) > 0,
    ensures
        cache_entries(*final(cache)) == stored(
            cache_entries(*old(cache)),
            cache_capacity(*old(cache)),
            (key.0@, key.1),
            value,
        ),
        cache_capacity(*final(cache)) == cache_capacity(*old(cache)),
{
    cache.put(key, value);
}

/// `lru::LruCache::clear`: removes every entry.
#[verifier::external_body]
fn cache_clear(cache: &mut lru::LruCache<(String, i64), bool>)
    ensures
        cache_entries(*final(cache)).len() == 0,
        cache_capacity(*final(cache)) == cache_capacity(*old(cache)),
{
    cache.clear();
}

proof fn lookup_finds(entries: Seq<(DigestValue, bool)>, key: DigestValue)
    ensures
        lookup(entries, key) is None <==> forall|i: int|
            0 <= i < entries.len() ==> (#[trigger] entries[i]).0 != key,
        lookup(entries, key) matches Some(value) ==> exists|i: int|
            0 <= i < entries.len() && #[trigger] entries[i] == (key, value),
    decreases entries.len(),
{
    if entries.len() > 0 {
        let rest = entries.drop_first();
        lookup_finds(rest, key);
        if entries[0].0 == key {
            assert(entries[0] == (key, entries[0].1));
        } else {
            assert forall|i: int| 0 <= i < entries.len() && lookup(rest, key) is None implies (
            #[trigger] entries[i]).0 != key by {
                if i > 0 {
                    assert(rest[i - 1] == entries[i]);
                }
            }
            if lookup(rest, key) is Some {
                let value = lookup(rest, key)->0;
                let i = choose|i: int| 0 <= i < rest.len() && #[trigger] rest[i] == (key, value);
                assert(entries[i + 1] == (key, value));
            }
        }
    }
}

proof fn without_drops_one(entries: Seq<(DigestValue, bool)>, key: DigestValue)
    requires
        is_distinct(entries),
    ensures
        lookup(without(entries, key), key) is None,
        forall|other: DigestValue|
            other != key ==> #[trigger] lookup(without(entries, key), other) == lookup(
                entries,
                other,
            ),
        is_distinct(without(entries, key)),
        without(entries, key).len() == entries.len() - if lookup(entries, key) is Some {
            1int
        } else {
            0
        },
        forall|i: int|
            0 <= i < without(entries, key).len() ==> exists|j: int|
                0 <= j < entries.len() && entries[j] == #[trigger] without(entries, key)[i],
    decreases entries.len(),
{
    if entries.len() > 0 {
        let rest = entries.drop_first();
        assert forall|i: int, j: int| 0 <= i < j < rest.len() implies (#[trigger] rest[i]).0 != (
        #[trigger] rest[j]).0 by {
            assert(entries[i + 1].0 != entries[j + 1].0);
        }
        without_drops_one(rest, key);
        let kept = without(rest, key);
        let all = without(entries, key);
        if entries[0].0 == key {
            lookup_finds(rest, key);
            assert forall|i: int| 0 <= i < rest.len() implies (#[trigger] rest[i]).0 != key by {
                assert(entries[0].0 != entries[i + 1].0);
            }
            assert forall|i: int| 0 <= i < all.len() implies exists|j: int|
                0 <= j < entries.len() && entries[j] == #[trigger] all[i] by {
                let j = choose|j: int| 0 <= j < rest.len() && rest[j] == all[i];
                assert(entries[j + 1] == all[i]);
            }
        } else {
            assert(all.drop_first() =~= kept);
            assert forall|i: int| 0 <= i < all.len() implies exists|j: int|
                0 <= j < entries.len() && entries[j] == #[trigger] all[i] by {
                if i == 0 {
                    assert(entries[0] == all[0]);
                } else {
                    let j = choose|j: int| 0 <= j < rest.len() && rest[j] == kept[i - 1];
                    assert(entries[j + 1] == all[i]);
                }
            }
            assert forall|i: int, j: int| 0 <= i < j < all.len() implies (#[trigger] all[i]).0 != (
            #[trigger] all[j]).0 by {
                let b = choose|b: int| 0 <= b < rest.len() && rest[b] == kept[j - 1];
                if i == 0 {
                    assert(entries[0].0 != entries[b + 1].0);
                } else {
                    assert(kept[i - 1].0 != kept[j - 1].0);
                }
            }
            assert forall|other: DigestValue| other != key implies #[trigger] lookup(all, other)
                == lookup(entries, other) by {
                assert(lookup(kept, other) == lookup(rest, other));
            }
        }
    }
}

proof fn front_is_found(
    front: (DigestValue, bool),
    rest: Seq<(DigestValue, bool)>,
)
    requires
        is_distinct(rest),
        lookup(rest, front.0) is None,
    ensures
        is_distinct(seq![front] + rest),
        lookup(seq![front] + rest, front.0) == Some(front.1),
        forall|other: DigestValue|
            other != front.0 ==> #[trigger] lookup(seq![front] + rest, other) == lookup(
                rest,
                other,
            ),
{
    let all = seq![front] + rest;
    assert(all.drop_first() =~= rest);
    lookup_finds(rest, front.0);
    assert forall|i: int, j: int| 0 <= i < j < all.len() implies (#[trigger] all[i]).0 != (
    #[trigger] all[j]).0 by {
        if i > 0 {
            assert(rest[i - 1].0 != rest[j - 1].0);
        } else {
            assert(rest[j - 1].0 != front.0);
        }
    }
}

/// Looking a digest up changes what is known of none.
pub proof fn looking_up_forgets_nothing(entries: Seq<(DigestValue, bool)>, key: DigestValue)
    requires
        is_distinct(entries),
    ensures
        is_distinct(promoted(entries, key)),
        promoted(entries, key).len() == entries.len(),
        forall|other: DigestValue|
            #[trigger] lookup(promoted(entries, key), other) == lookup(entries, other),
{
    if let Some(value) = lookup(entries, key) {
        without_drops_one(entries, key);
        front_is_found((key, value), without(entries, key));
        assert forall|other: DigestValue| #[trigger]
            lookup(promoted(entries, key), other) == lookup(entries, other) by {
            if other != key {
                assert(lookup(without(entries, key), other) == lookup(entries, other));
            }
        }
    }
}

/// What was stored last under a digest is what is known of it; what is known of
/// another digest stays, unless it was the one entry that had to go.
pub proof fn storing_is_remembered(
    entries: Seq<(DigestValue, bool)>,
    capacity: nat,
    key: DigestValue,
    value: bool,
)
    requires
        is_distinct(entries),
        entries.len() <= capacity,
        capacity > 0,
    ensures
        is_distinct(stored(entries, capacity, key, value)),
        stored(entries, capacity, key, value).len() <= capacity,
        lookup(stored(entries, capacity, key, value), key) == Some(value),
        forall|other: DigestValue|
            other != key && (lookup(entries, key) is Some || entries.len() < capacity || entries
                .last().0 != other) ==> #[trigger] lookup(
                stored(entries, capacity, key, value),
                other,
            ) == lookup(entries, other),
{
    let after = stored(entries, capacity, key, value);
    if lookup(entries, key) is Some {
        without_drops_one(entries, key);
        front_is_found((key, value), without(entries, key));
        assert forall|other: DigestValue| other != key implies #[trigger] lookup(after, other)
            == lookup(entries, other) by {
            assert(lookup(without(entries, key), other) == lookup(entries, other));
        }
    } else if entries.len() == capacity {
        let kept = entries.drop_last();
        lookup_finds(entries, key);
        assert forall|i: int| 0 <= i < kept.len() implies (#[trigger] kept[i]).0 != key by {
            assert(entries[i].0 != key);
        }
        lookup_finds(kept, key);
        assert(is_distinct(kept)) by {
            assert forall|i: int, j: int| 0 <= i < j < kept.len() implies (#[trigger] kept[i]).0
                != (#[trigger] kept[j]).0 by {
                assert(entries[i].0 != entries[j].0);
            }
        }
        front_is_found((key, value), kept);
        assert forall|other: DigestValue|
            other != key && entries.last().0 != other implies #[trigger] lookup(after, other)
            == lookup(entries, other) by {
            last_is_not(entries, other);
        }
    } else {
        front_is_found((key, value), entries);
    }
}

proof fn last_is_not(entries: Seq<(DigestValue, bool)>, key: DigestValue)
    requires
        entries.len() > 0,
        entries.last().0 != key,
    ensures
        lookup(entries.drop_last(), key) == lookup(entries, key),
    decreases entries.len(),
{
    if entries.len() > 1 && entries[0].0 != key {
        last_is_not(entries.drop_first(), key);
        assert(entries.drop_first().drop_last() =~= entries.drop_last().drop_first());
    } else if entries.len() == 1 {
        assert(entries.drop_first() =~= Seq::empty());
        assert(entries.drop_last() =~= Seq::empty());
        assert(lookup(entries.drop_first(), key) is None);
    }
}

/// What is said of a digest, in words.
pub open spec fn remote_state(known: Option<bool>) -> Option<DigestRemoteState> {
    match known {
        Some(true) => Some(DigestRemoteState::ExistsOnRemote),
        Some(false) => Some(DigestRemoteState::Missing),
        None => None,
    }
}

/// Which digests the remote store was found to hold. Because a blob can expire on
/// the remote after it was found there, everything is forgotten once in a while.
pub struct FindMissingCache {
    cache: lru::LruCache<(String, i64), bool>,
    ttl: Duration,
    last_check: Duration,
}

/// What a cache of remote states knows, and since when.
pub ghost struct Remembered {
    pub entries: Seq<(DigestValue, bool)>,
    pub last_check: Duration,
}

impl View for FindMissingCache {
    type V = Remembered;

    closed spec fn view(&self) -> Remembered {
        Remembered { entries: cache_entries(self.cache), last_check: self.last_check }
    }
}

impl Remembered {
    /// What is still known at `now`: nothing once the time to live has passed.
    pub open spec fn at(self, now: Duration) -> Remembered {
        if span_between(self.last_check, now) > FIND_MISSING_CACHE_TTL_SECS * NANOS_PER_SEC {
            Remembered { entries: Seq::empty(), last_check: now }
        } else {
            self
        }
    }

    /// What is known after a digest was looked up at `now`.
    pub open spec fn got(self, key: DigestValue, now: Duration) -> Remembered {
        Remembered { entries: promoted(self.at(now).entries, key), ..self.at(now) }
    }

    /// What is known after a state was stored at `now`.
    pub open spec fn put(self, key: DigestValue, exists: bool, now: Duration) -> Remembered {
        Remembered {
            entries: stored(
                self.at(now).entries,
                FIND_MISSING_CACHE_CAPACITY as nat,
                key,
                exists,
            ),
            ..self.at(now)
        }
    }

    /// No digest has two entries, and there are not too many.
    pub open spec fn wf(self) -> bool {
        is_distinct(self.entries) && self.entries.len() <= FIND_MISSING_CACHE_CAPACITY
    }
}

impl FindMissingCache {
    /// The limits are the configured ones.
    pub closed spec fn has_limits(self) -> bool {
        &&& cache_capacity(self.cache) == FIND_MISSING_CACHE_CAPACITY
        &&& self.ttl@ == FIND_MISSING_CACHE_TTL_SECS * NANOS_PER_SEC
    }

    /// No digest has two entries, and the limits are the configured ones.
    pub open spec fn wf(self) -> bool {
        self@.wf() && self.has_limits()
    }

    /// Nothing is known yet.
    pub fn new(now: Duration) -> (cache: Self)
        ensures
            cache.wf(),
            cache@ == (Remembered { entries: Seq::empty(), last_check: now }),
    {
        let cache = FindMissingCache {
            cache: new_cache(FIND_MISSING_CACHE_CAPACITY),
            ttl: Duration::from_secs(FIND_MISSING_CACHE_TTL_SECS),
            last_check: now,
        };
        assert(cache@.entries =~= Seq::empty());
        cache
    }

    fn clear_if_ttl_expires(&mut self, now: Duration)
        requires
            old(self).wf(),
        ensures
            final(self).wf(),
            final(self)@ == old(self)@.at(now),
    {
        if self.ttl.is_shorter_than(&now.saturating_sub(self.last_check)) {
            cache_clear(&mut self.cache);
            self.last_check = now;
            assert(self@.entries =~= Seq::empty());
        }
    }

    /// What is known of a digest.
    pub fn get(&mut self, digest: &TDigest, now: Duration) -> (state: Option<DigestRemoteState>)
        requires
            old(self).wf(),
        ensures
            final(self).wf(),
            final(self)@ == old(self)@.got(digest@, now),
            state == remote_state(lookup(old(self)@.at(now).entries, digest@)),
    {
        self.clear_if_ttl_expires(now);
        proof {
            looking_up_forgets_nothing(self@.entries, digest@);
        }
        let known = cache_get(&mut self.cache, &(digest.hash.clone(), digest.size_in_bytes));
        match known {
            Some(exists) => if exists {
                Some(DigestRemoteState::ExistsOnRemote)
            } else {
                Some(DigestRemoteState::Missing)
            },
            None => None,
        }
    }

    /// Remembers the state of a digest.
    pub fn put(&mut self, digest: TDigest, state: DigestRemoteState, now: Duration)
        requires
            old(self).wf(),
        ensures
            final(self).wf(),
            final(self)@ == old(self)@.put(digest@, state is ExistsOnRemote, now),
    {
        self.clear_if_ttl_expires(now);
        let exists = match state {
            DigestRemoteState::ExistsOnRemote => true,
            DigestRemoteState::Missing => false,
        };
        proof {
            storing_is_remembered(
                self@.entries,
                FIND_MISSING_CACHE_CAPACITY as nat,
                digest@,
                exists,
            );
        }
        cache_put(&mut self.cache, (digest.hash, digest.size_in_bytes), exists);
    }
}

/// What was stored of a digest is what a later lookup finds, as long as the time to
/// live has not passed and nothing else was stored since.
pub proof fn stored_states_are_found(
    cache: Remembered,
    key: DigestValue,
    exists: bool,
    now: Duration,
    later: Duration,
)
    requires
        cache.wf(),
        span_between(cache.at(now).last_check, later) <= FIND_MISSING_CACHE_TTL_SECS
            * NANOS_PER_SEC,
    ensures
        lookup(cache.put(key, exists, now).at(later).entries, key) == Some(exists),
        remote_state(lookup(cache.put(key, exists, now).at(later).entries, key)) == Some(
            if exists {
                DigestRemoteState::ExistsOnRemote
            } else {
                DigestRemoteState::Missing
            },
        ),
{
    storing_is_remembered(
        cache.at(now).entries,
        FIND_MISSING_CACHE_CAPACITY as nat,
        key,
        exists,
    );
}

/// What is known is kept for twelve hours after the last check, and all of it is
/// forgotten at the first use after that, when a new check begins.
pub proof fn everything_is_forgotten_after_twelve_hours(cache: Remembered, now: Duration)
    ensures
        now@ > cache.last_check@ + 43_200_000_000_000 ==> cache.at(now).entries.len() == 0
            && cache.at(now).last_check == now,
        now@ <= cache.last_check@ + 43_200_000_000_000 ==> cache.at(now) == cache,
{
}

/// A digest that has an entry is known by it, and one that has none is not known.
pub proof fn lookups_find_the_entry(
    entries: Seq<(DigestValue, bool)>,
    key: DigestValue,
    i: int,
)
    requires
        is_distinct(entries),
    ensures
        0 <= i < entries.len() && entries[i].0 == key ==> lookup(entries, key) == Some(
            entries[i].1,
        ),
        lookup(entries, key) is None <==> forall|j: int|
            0 <= j < entries.len() ==> (#[trigger] entries[j]).0 != key,
{
    lookup_finds(entries, key);
    if 0 <= i < entries.len() && entries[i].0 == key {
        let value = lookup(entries, key)->0;
        let j = choose|j: int| 0 <= j < entries.len() && #[trigger] entries[j] == (key, value);
        if i < j {
            assert(entries[i].0 != entries[j].0);
        } else if j < i {
            assert(entries[j].0 != entries[i].0);
        }
    }
}

proof fn without_keeps_the_others(entries: Seq<(DigestValue, bool)>, key: DigestValue)
    ensures
        without(entries, key) == entries.filter(|entry: (DigestValue, bool)| entry.0 != key),
    decreases entries.len(),
{
    reveal(Seq::filter);
    let others = |entry: (DigestValue, bool)| entry.0 != key;
    if entries.len() > 0 {
        without_keeps_the_others(entries.drop_first(), key);
        assert(entries =~= seq![entries[0]] + entries.drop_first());
        Seq::filter_distributes_over_add(seq![entries[0]], entries.drop_first(), others);
        let one = seq![entries[0]];
        assert(one.drop_last() =~= Seq::empty());
        assert(Seq::<(DigestValue, bool)>::empty().filter(others) =~= Seq::empty());
        if entries[0].0 == key {
            assert(one.filter(others) =~= Seq::empty());
        } else {
            assert(one.filter(others) =~= one);
        }
    }
}

/// A digest that was used last comes first, and the others keep their order behind it.
/// Storing a new digest where the cache is full drops the one that was used longest ago,
/// and nothing else does.
pub proof fn the_longest_unused_entry_goes(
    entries: Seq<(DigestValue, bool)>,
    capacity: nat,
    key: DigestValue,
    value: bool,
)
    requires
        is_distinct(entries),
        entries.len() <= capacity,
        capacity > 0,
    ensures
        ({
            let others = entries.filter(|entry: (DigestValue, bool)| entry.0 != key);
            let known = exists|i: int|
                0 <= i < entries.len() && (#[trigger] entries[i]).0 == key;
            let after = stored(entries, capacity, key, value);
            let looked_up = promoted(entries, key);
            &&& known ==> after == seq![(key, value)] + others
            &&& !known && entries.len() < capacity ==> after == seq![(key, value)] + entries
            &&& !known && entries.len() == capacity ==> after == seq![(key, value)] + entries.take(
                capacity - 1,
            )
            &&& !known ==> looked_up == entries
            &&& known ==> looked_up.len() == entries.len() && looked_up[0].0 == key
                && looked_up.drop_first() == others
        }),
{
    lookup_finds(entries, key);
    without_keeps_the_others(entries, key);
    without_drops_one(entries, key);
    if entries.len() > 0 {
        assert(entries.drop_last() =~= entries.take(entries.len() - 1));
    }
    if lookup(entries, key) is Some {
        let looked_up = promoted(entries, key);
        assert(looked_up.drop_first() =~= without(entries, key));
    }
}

/// A lookup tells what was stored: that the store holds the digest, that it lacks it,
/// or nothing.
pub proof fn lookups_tell_what_was_stored(known: Option<bool>)
    ensures
        known == Some(true) <==> remote_state(known) == Some(DigestRemoteState::ExistsOnRemote),
        known == Some(false) <==> remote_state(known) == Some(DigestRemoteState::Missing),
        known is None <==> remote_state(known) is None,
{
}

/// A cache holds half a million digests: where that many are known, storing another
/// leaves as many, and below that it adds one.
pub proof fn half_a_million_digests_are_remembered(
    cache: Remembered,
    key: DigestValue,
    exists: bool,
    now: Duration,
)
    requires
        cache.wf(),
        now@ <= cache.last_check@ + 43_200_000_000_000,
        forall|i: int| 0 <= i < cache.entries.len() ==> (#[trigger] cache.entries[i]).0 != key,
    ensures
        cache.entries.len() < 500_000 ==> cache.put(key, exists, now).entries.len()
            == cache.entries.len() + 1,
        cache.entries.len() == 500_000 ==> cache.put(key, exists, now).entries.len() == 500_000,
        cache.put(key, exists, now).entries[0] == (key, exists),
        cache.put(key, exists, now).last_check == cache.last_check,
{
    lookup_finds(cache.entries, key);
}

} // verus!
