//! Asking the remote store how long digests will still live there.
use vstd::prelude::*;
use vstd::string::*;

use crate::digest::{tdigest_from, tdigest_to, Digest, DigestValue, TDigest};
use crate::duration::Duration;
use crate::find_missing::{
    looking_up_forgets_nothing, lookup, lookups_find_the_entry, promoted, stored,
    storing_is_remembered, without, DigestRemoteState, FindMissingCache, Remembered,
    FIND_MISSING_CACHE_CAPACITY,
};
use crate::keyed::{entries_are_found, KeyedMap};
use crate::names::{instance_text, InstanceName};

verus! {

/// Asks which of some blobs the store lacks.
#[derive(Debug)]
pub struct FindMissingBlobsRequest {
    pub instance_name: String,
    pub blob_digests: Vec<Digest>,
}

/// A digest and how many seconds it will still live, zero where the store lacks it.
#[derive(Debug)]
pub struct DigestWithTtl {
    pub digest: TDigest,
    pub ttl: i64,
}

/// What digests say.
pub open spec fn values(digests: Seq<TDigest>) -> Seq<DigestValue> {
    digests.map_values(|digest: TDigest| digest@)
}

/// What digests on the wire say.
pub open spec fn wire_values(digests: Seq<Digest>) -> Seq<DigestValue> {
    digests.map_values(|digest: Digest| digest@)
}

/// The digests of which nothing is known, in order.
pub open spec fn unknown(
    digests: Seq<DigestValue>,
    entries: Seq<(DigestValue, bool)>,
) -> Seq<DigestValue>
    decreases digests.len(),
{
    if digests.len() == 0 {
        Seq::empty()
    } else if lookup(entries, digests.last()) is None {
        unknown(digests.drop_last(), entries).push(digests.last())
    } else {
        unknown(digests.drop_last(), entries)
    }
}

/// `states` with what is known of `digests`.
pub open spec fn with_known(
    states: Map<DigestValue, bool>,
    digests: Seq<DigestValue>,
    entries: Seq<(DigestValue, bool)>,
) -> Map<DigestValue, bool>
    decreases digests.len(),
{
    if digests.len() == 0 {
        states
    } else {
        let before = with_known(states, digests.drop_last(), entries);
        match lookup(entries, digests.last()) {
            Some(exists) => before.insert(digests.last(), exists),
            None => before,
        }
    }
}

/// What is remembered after `digests` were looked up, one after the other.
pub open spec fn got_all(cache: Remembered, digests: Seq<DigestValue>, now: Duration) -> Remembered
    decreases digests.len(),
{
    if digests.len() == 0 {
        cache
    } else {
        got_all(cache, digests.drop_last(), now).got(digests.last(), now)
    }
}

/// `states` with the same state for all `digests`.
pub open spec fn with_all(
    states: Map<DigestValue, bool>,
    digests: Seq<DigestValue>,
    exists: bool,
) -> Map<DigestValue, bool>
    decreases digests.len(),
{
    if digests.len() == 0 {
        states
    } else {
        with_all(states, digests.drop_last(), exists).insert(digests.last(), exists)
    }
}

/// What is remembered after the same state was stored for all `digests`.
pub open spec fn put_all(
    cache: Remembered,
    digests: Seq<DigestValue>,
    exists: bool,
    now: Duration,
) -> Remembered
    decreases digests.len(),
{
    if digests.len() == 0 {
        cache
    } else {
        put_all(cache, digests.drop_last(), exists, now).put(digests.last(), exists, now)
    }
}

proof fn looking_up_keeps_what_is_known(
    cache: Remembered,
    digests: Seq<DigestValue>,
    now: Duration,
)
    requires
        cache.wf(),
    ensures
        got_all(cache, digests, now).wf(),
        digests.len() > 0 ==> got_all(cache, digests, now).last_check == cache.at(now).last_check,
        got_all(cache, digests, now).at(now).last_check == cache.at(now).last_check,
        forall|key: DigestValue|
            lookup(#[trigger] got_all(cache, digests, now).at(now).entries, key) == lookup(
                cache.at(now).entries,
                key,
            ),
    decreases digests.len(),
{
    if digests.len() > 0 {
        let before = got_all(cache, digests.drop_last(), now);
        looking_up_keeps_what_is_known(cache, digests.drop_last(), now);
        looking_up_forgets_nothing(before.at(now).entries, digests.last());
        let after = got_all(cache, digests, now);
        assert forall|key: DigestValue|
            lookup(#[trigger] after.at(now).entries, key) == lookup(
                cache.at(now).entries,
                key,
            ) by {
            assert(lookup(promoted(before.at(now).entries, digests.last()), key) == lookup(
                before.at(now).entries,
                key,
            ));
        }
    }
}

/// A request for the time to live of digests, as far as it is answered.
#[derive(Debug)]
pub struct DigestsTtl {
    digests: Vec<TDigest>,
    next: usize,
    batch_size: usize,
    to_check: Vec<TDigest>,
    states: KeyedMap<TDigest, bool>,
}

/// How far a request for the time to live of digests is.
pub ghost struct TtlProgress {
    /// The digests asked about.
    pub digests: Seq<DigestValue>,
    /// How many of them were looked at.
    pub next: nat,
    /// The digests that the store was asked about last.
    pub to_check: Seq<DigestValue>,
    /// What is known.
    pub states: Map<DigestValue, bool>,
    /// How many digests the store is asked about at a time.
    pub limit: nat,
}

impl View for DigestsTtl {
    type V = TtlProgress;

    closed spec fn view(&self) -> TtlProgress {
        TtlProgress {
            digests: values(self.digests@),
            next: self.next as nat,
            to_check: values(self.to_check@),
            states: self.states@,
            limit: if self.batch_size == 0 {
                1
            } else {
                self.batch_size as nat
            },
        }
    }
}

impl TtlProgress {
    /// Every digest looked at so far is known or the store is asked about it.
    pub open spec fn is_covered(self) -> bool {
        &&& self.next <= self.digests.len()
        &&& forall|i: int|
            0 <= i < self.next ==> self.states.contains_key(#[trigger] self.digests[i])
                || self.to_check.contains(self.digests[i])
    }

    /// The digests that `later` has looked at beyond `self`.
    pub open spec fn taken(self, later: TtlProgress) -> Seq<DigestValue> {
        self.digests.subrange(self.next as int, later.next as int)
    }

    /// Nothing was done yet for a request about `digests`.
    pub open spec fn fresh(digests: Seq<DigestValue>, limit: nat) -> TtlProgress {
        TtlProgress {
            digests,
            next: 0,
            to_check: Seq::empty(),
            states: Map::empty(),
            limit,
        }
    }

    /// `later` is `self` after it looked further, at what `entries` remember, until the
    /// store is to be asked or nothing is left.
    pub open spec fn looks_further(
        self,
        entries: Seq<(DigestValue, bool)>,
        later: TtlProgress,
    ) -> bool {
        &&& later.digests == self.digests
        &&& later.limit == self.limit
        &&& self.next <= later.next <= self.digests.len()
        &&& later.to_check == unknown(self.taken(later), entries)
        &&& later.states == with_known(self.states, self.taken(later), entries)
        &&& later.to_check.len() <= later.limit
        &&& later.next < later.digests.len() ==> later.to_check.len() == later.limit
        &&& self.next < later.next ==> unknown(self.taken(later).drop_last(), entries).len()
            < later.limit
    }

    /// `request` asks instance `instance` about the digests that are to be checked, and
    /// is none where there are none.
    pub open spec fn asks(
        self,
        instance: Option<Seq<char>>,
        request: Option<FindMissingBlobsRequest>,
    ) -> bool {
        match request {
            Some(find) => {
                &&& self.to_check.len() > 0
                &&& find.instance_name@ == instance_text(instance)
                &&& wire_values(find.blob_digests@) == self.to_check
            },
            None => self.to_check.len() == 0,
        }
    }

    /// `self` after the store reported what it lacks of what it was asked about.
    pub open spec fn told(self, missing: Seq<DigestValue>) -> TtlProgress {
        TtlProgress {
            to_check: Seq::empty(),
            states: with_all(with_all(self.states, self.to_check, true), missing, false),
            ..self
        }
    }
}

/// One round of a lookup: what was remembered when it began, how far it looked, and
/// what the store then reported as missing, which is nothing where it was not asked.
pub ghost struct TtlRound {
    pub entries: Seq<(DigestValue, bool)>,
    pub looked: TtlProgress,
    pub missing: Seq<DigestValue>,
}

impl TtlRound {
    /// How far the lookup is after the round.
    pub open spec fn after(self) -> TtlProgress {
        self.looked.told(self.missing)
    }

    /// The store only reported what it was asked about.
    pub open spec fn is_honest(self) -> bool {
        forall|i: int|
            0 <= i < self.missing.len() ==> self.looked.to_check.contains(
                #[trigger] self.missing[i],
            )
    }

    /// What a round that began at `before` says of a digest: the store's word where it
    /// was asked, else what was remembered of a digest that was looked at.
    pub open spec fn says(self, before: TtlProgress, key: DigestValue) -> Option<bool> {
        if self.looked.to_check.contains(key) {
            Some(!self.missing.contains(key))
        } else if before.taken(self.looked).contains(key) {
            lookup(self.entries, key)
        } else {
            None
        }
    }
}

/// Where the rounds of a lookup have brought it.
pub open spec fn after_rounds(first: TtlProgress, rounds: Seq<TtlRound>) -> TtlProgress {
    if rounds.len() == 0 {
        first
    } else {
        rounds.last().after()
    }
}

/// Each round goes on where the one before it ended.
pub open spec fn follow_each_other(first: TtlProgress, rounds: Seq<TtlRound>) -> bool {
    forall|i: int|
        0 <= i < rounds.len() ==> after_rounds(first, rounds.take(i)).looks_further(
            (#[trigger] rounds[i]).entries,
            rounds[i].looked,
        )
}

/// What the last round that says anything of a digest says of it.
pub open spec fn last_word(first: TtlProgress, rounds: Seq<TtlRound>, key: DigestValue) -> Option<
    bool,
>
    decreases rounds.len(),
{
    if rounds.len() == 0 {
        None
    } else {
        match rounds.last().says(after_rounds(first, rounds.drop_last()), key) {
            Some(exists) => Some(exists),
            None => last_word(first, rounds.drop_last(), key),
        }
    }
}

/// `answer` holds every digest that is known, once, with its time to live.
pub open spec fn answers(
    states: Map<DigestValue, bool>,
    cas_ttl_secs: i64,
    answer: Seq<DigestWithTtl>,
) -> bool {
    &&& forall|i: int|
        0 <= i < answer.len() ==> {
            &&& states.contains_key((#[trigger] answer[i]).digest@)
            &&& answer[i].ttl == if states[answer[i].digest@] {
                cas_ttl_secs
            } else {
                0
            }
        }
    &&& forall|i: int, j: int|
        0 <= i < j < answer.len() ==> (#[trigger] answer[i]).digest@ != (
        #[trigger] answer[j]).digest@
    &&& forall|key: DigestValue|
        states.contains_key(key) ==> exists|i: int|
            0 <= i < answer.len() && (#[trigger] answer[i]).digest@ == key
}

proof fn found_in_either(left: Seq<DigestValue>, right: Seq<DigestValue>, key: DigestValue)
    ensures
        (left + right).contains(key) == (left.contains(key) || right.contains(key)),
{
    let all = left + right;
    if all.contains(key) {
        let i = choose|i: int| 0 <= i < all.len() && all[i] == key;
        if i < left.len() {
            assert(left[i] == key);
        } else {
            assert(right[i - left.len()] == key);
        }
    }
    if left.contains(key) {
        let i = choose|i: int| 0 <= i < left.len() && left[i] == key;
        assert(all[i] == key);
    }
    if right.contains(key) {
        let i = choose|i: int| 0 <= i < right.len() && right[i] == key;
        assert(all[left.len() + i] == key);
    }
}

proof fn found_before_or_last(digests: Seq<DigestValue>, key: DigestValue)
    requires
        digests.len() > 0,
    ensures
        digests.contains(key) == (digests.drop_last().contains(key) || digests.last() == key),
{
    let last = seq![digests.last()];
    found_in_either(digests.drop_last(), last, key);
    assert(digests =~= digests.drop_last() + last);
    assert(last[0] == digests.last());
}

proof fn unknown_are_not_remembered(
    digests: Seq<DigestValue>,
    entries: Seq<(DigestValue, bool)>,
    key: DigestValue,
)
    ensures
        unknown(digests, entries).contains(key) == (digests.contains(key) && lookup(
            entries,
            key,
        ) is None),
    decreases digests.len(),
{
    if digests.len() > 0 {
        let before = digests.drop_last();
        let all = unknown(digests, entries);
        unknown_are_not_remembered(before, entries, key);
        found_before_or_last(digests, key);
        if lookup(entries, digests.last()) is None {
            found_before_or_last(all, key);
            assert(all.drop_last() =~= unknown(before, entries));
        }
    }
}

proof fn known_are_remembered(
    states: Map<DigestValue, bool>,
    digests: Seq<DigestValue>,
    entries: Seq<(DigestValue, bool)>,
    key: DigestValue,
)
    ensures
        with_known(states, digests, entries).contains_key(key) == (states.contains_key(key) || (
        digests.contains(key) && lookup(entries, key) is Some)),
        with_known(states, digests, entries).contains_key(key) ==> with_known(
            states,
            digests,
            entries,
        )[key] == if digests.contains(key) && lookup(entries, key) is Some {
            lookup(entries, key)->0
        } else {
            states[key]
        },
    decreases digests.len(),
{
    if digests.len() > 0 {
        let before = digests.drop_last();
        known_are_remembered(states, before, entries, key);
        found_before_or_last(digests, key);
    }
}

proof fn a_round_tells(before: TtlProgress, round: TtlRound, key: DigestValue)
    requires
        before.next <= before.digests.len(),
        before.looks_further(round.entries, round.looked),
        round.is_honest(),
    ensures
        round.after().next <= round.after().digests.len(),
        round.after().states.contains_key(key) == (before.states.contains_key(key) || before.taken(
            round.looked,
        ).contains(key)),
        round.after().states.contains_key(key) ==> round.after().states[key] == match round.says(
            before,
            key,
        ) {
            Some(exists) => exists,
            None => before.states[key],
        },
        round.says(before, key) is Some == before.taken(round.looked).contains(key),
{
    let taken = before.taken(round.looked);
    let known = round.looked.states;
    let asked = round.looked.to_check;
    known_are_remembered(before.states, taken, round.entries, key);
    unknown_are_not_remembered(taken, round.entries, key);
    all_are_known(known, asked, true, key);
    all_are_known(with_all(known, asked, true), round.missing, false, key);
    if round.missing.contains(key) {
        let i = choose|i: int| 0 <= i < round.missing.len() && round.missing[i] == key;
        assert(asked.contains(round.missing[i]));
    }
}

proof fn rounds_tell(first: TtlProgress, rounds: Seq<TtlRound>, key: DigestValue)
    requires
        first == TtlProgress::fresh(first.digests, first.limit),
        follow_each_other(first, rounds),
        forall|i: int| 0 <= i < rounds.len() ==> (#[trigger] rounds[i]).is_honest(),
    ensures
        ({
            let end = after_rounds(first, rounds);
            &&& end.digests == first.digests
            &&& end.limit == first.limit
            &&& end.next <= end.digests.len()
            &&& end.states.contains_key(key) == end.digests.take(end.next as int).contains(key)
            &&& last_word(first, rounds, key) == if end.states.contains_key(key) {
                Some(end.states[key])
            } else {
                None
            }
        }),
    decreases rounds.len(),
{
    if rounds.len() == 0 {
        assert(first.digests.take(0) =~= Seq::empty());
    } else {
        let n = rounds.len() - 1;
        let earlier = rounds.drop_last();
        let round = rounds[n];
        assert(earlier =~= rounds.take(n));
        assert forall|i: int| 0 <= i < earlier.len() implies after_rounds(
            first,
            earlier.take(i),
        ).looks_further((#[trigger] earlier[i]).entries, earlier[i].looked) by {
            assert(earlier.take(i) =~= rounds.take(i));
            assert(earlier[i] == rounds[i]);
        }
        assert forall|i: int| 0 <= i < earlier.len() implies (
        #[trigger] earlier[i]).is_honest() by {
            assert(rounds[i].is_honest());
        }
        rounds_tell(first, earlier, key);
        let before = after_rounds(first, earlier);
        let end = round.after();
        a_round_tells(before, round, key);
        let seen = before.digests.take(before.next as int);
        let taken = before.taken(round.looked);
        let all = before.digests.take(end.next as int);
        assert(all =~= seen + taken);
        found_in_either(seen, taken, key);
    }
}

/// A lookup that came to its end answers for what it was asked about and for nothing
/// else, once for each digest. The time to live goes by the last that was said of the
/// digest, by the store or by what was remembered of it. A lookup comes to its end with
/// a round in which the store need not be asked; before that the store may report
/// whatever it likes of what it was asked about.
pub proof fn lookups_answer_what_was_asked(
    digests: Seq<DigestValue>,
    limit: nat,
    rounds: Seq<TtlRound>,
    cas_ttl_secs: i64,
    answer: Seq<DigestWithTtl>,
)
    requires
        limit > 0,
        rounds.len() > 0,
        follow_each_other(TtlProgress::fresh(digests, limit), rounds),
        forall|i: int| 0 <= i < rounds.len() ==> (#[trigger] rounds[i]).is_honest(),
        rounds.last().looked.to_check.len() == 0,
        answers(rounds.last().looked.states, cas_ttl_secs, answer),
    ensures
        forall|i: int|
            0 <= i < answer.len() ==> {
                let said = last_word(
                    TtlProgress::fresh(digests, limit),
                    rounds,
                    (#[trigger] answer[i]).digest@,
                );
                &&& digests.contains(answer[i].digest@)
                &&& said is Some
                &&& answer[i].ttl == if said->0 {
                    cas_ttl_secs
                } else {
                    0
                }
            },
        forall|i: int, j: int|
            0 <= i < j < answer.len() ==> (#[trigger] answer[i]).digest@ != (
            #[trigger] answer[j]).digest@,
        forall|k: int|
            0 <= k < digests.len() ==> exists|i: int|
                0 <= i < answer.len() && (#[trigger] answer[i]).digest@ == #[trigger] digests[k],
{
    let first = TtlProgress::fresh(digests, limit);
    let last = rounds.last();
    let end = after_rounds(first, rounds);
    assert(last.is_honest());
    if last.missing.len() > 0 {
        assert(last.looked.to_check.contains(last.missing[0]));
    }
    assert(end.states == last.looked.states);
    rounds_tell(first, rounds, (Seq::empty(), 0i64));
    assert(after_rounds(first, rounds.take(rounds.len() - 1)).looks_further(
        rounds[rounds.len() - 1].entries,
        last.looked,
    ));
    assert(end.next == digests.len());
    assert(digests.take(end.next as int) =~= digests);
    assert forall|i: int| 0 <= i < answer.len() implies {
        let said = last_word(first, rounds, (#[trigger] answer[i]).digest@);
        &&& digests.contains(answer[i].digest@)
        &&& said is Some
        &&& answer[i].ttl == if said->0 {
            cas_ttl_secs
        } else {
            0
        }
    } by {
        rounds_tell(first, rounds, answer[i].digest@);
    }
    assert forall|k: int| 0 <= k < digests.len() implies exists|i: int|
        0 <= i < answer.len() && (#[trigger] answer[i]).digest@ == #[trigger] digests[k] by {
        rounds_tell(first, rounds, digests[k]);
        assert(digests.contains(digests[k]));
        assert(end.states.contains_key(digests[k]));
    }
}

proof fn all_are_known(states: Map<DigestValue, bool>, digests: Seq<DigestValue>, exists: bool, key: DigestValue)
    ensures
        states.contains_key(key) || digests.contains(key) <==> with_all(
            states,
            digests,
            exists,
        ).contains_key(key),
        digests.contains(key) ==> with_all(states, digests, exists)[key] == exists,
        !digests.contains(key) && states.contains_key(key) ==> with_all(
            states,
            digests,
            exists,
        )[key] == states[key],
    decreases digests.len(),
{
    if digests.len() > 0 {
        let before = digests.drop_last();
        all_are_known(states, before, exists, key);
        found_before_or_last(digests, key);
    }
}

/// Every digest asked about is answered once nothing is left to look at and the
/// store was heard.
pub proof fn every_digest_is_answered(progress: TtlProgress, i: int)
    requires
        progress.is_covered(),
        progress.next == progress.digests.len(),
        progress.to_check.len() == 0,
        0 <= i < progress.digests.len(),
    ensures
        progress.states.contains_key(progress.digests[i]),
{
}

/// What the store reports as missing counts as missing, and what it was asked about
/// and did not report counts as there.
pub proof fn the_store_decides(
    states: Map<DigestValue, bool>,
    asked: Seq<DigestValue>,
    missing: Seq<DigestValue>,
    key: DigestValue,
)
    requires
        asked.contains(key),
    ensures
        with_all(with_all(states, asked, true), missing, false).contains_key(key),
        with_all(with_all(states, asked, true), missing, false)[key] == !missing.contains(key),
{
    all_are_known(states, asked, true, key);
    all_are_known(with_all(states, asked, true), missing, false, key);
}

impl DigestsTtl {
    /// Every digest looked at so far is accounted for.
    pub open spec fn wf(self) -> bool {
        self@.is_covered()
    }

    /// A request that nothing was done for yet.
    pub fn new(digests: Vec<TDigest>, batch_size: usize) -> (request: Self)
        ensures
            request.wf(),
            request@ == TtlProgress::fresh(
                values(digests@),
                if batch_size == 0 {
                    1
                } else {
                    batch_size as nat
                },
            ),
    {
        let request = DigestsTtl {
            digests,
            next: 0,
            batch_size,
            to_check: Vec::new(),
            states: KeyedMap::new(),
        };
        assert(values(request.to_check@) =~= Seq::empty());
        request
    }

    /// Looks at further digests until enough of them are unknown, and asks the store
    /// about those. `None` once nothing is left to ask.
    pub fn next_request(
        &mut self,
        instance_name: &InstanceName,
        cache: &mut FindMissingCache,
        now: Duration,
    ) -> (request: Option<FindMissingBlobsRequest>)
        requires
            old(self).wf(),
            old(self)@.to_check.len() == 0,
            old(cache).wf(),
        ensures
            final(self).wf(),
            final(cache).wf(),
            old(self)@.looks_further(old(cache)@.at(now).entries, final(self)@),
            final(cache)@ == got_all(old(cache)@, old(self)@.taken(final(self)@), now),
            final(self)@.asks(instance_name@, request),
            request is None ==> final(self)@.next == final(self)@.digests.len(),
    {
        let ghost entries = cache@.at(now).entries;
        let ghost from = self.next as int;
        let ghost all = values(self.digests@);
        let ghost first = self@;
        let ghost remembered = cache@;
        let limit: usize = if self.batch_size == 0 {
            1
        } else {
            self.batch_size
        };
        assert(all.subrange(from, from) =~= Seq::empty());
        assert(values(self.to_check@) =~= Seq::empty());
        while self.next < self.digests.len() && self.to_check.len() < limit
            invariant
                first.is_covered(),
                remembered.wf(),
                entries == remembered.at(now).entries,
                limit == (if self.batch_size == 0 {
                    1
                } else {
                    self.batch_size
                }),
                first.limit == limit,
                first.digests == all,
                first.next == from,
                all == values(self.digests@),
                from <= self.next <= self.digests@.len(),
                cache.wf(),
                cache@ == got_all(remembered, all.subrange(from, self.next as int), now),
                values(self.to_check@) == unknown(all.subrange(from, self.next as int), entries),
                self.states@ == with_known(
                    first.states,
                    all.subrange(from, self.next as int),
                    entries,
                ),
                self.to_check@.len() <= limit,
                from < self.next ==> unknown(
                    all.subrange(from, self.next as int).drop_last(),
                    entries,
                ).len() < limit,
            decreases self.digests@.len() - self.next,
        {
            let ghost seen = all.subrange(from, self.next as int);
            let digest = self.digests[self.next].clone();
            proof {
                looking_up_keeps_what_is_known(remembered, seen, now);
                assert(lookup(got_all(remembered, seen, now).at(now).entries, digest@) == lookup(
                    entries,
                    digest@,
                ));
                assert(all.subrange(from, self.next + 1).drop_last() =~= seen);
                assert(all.subrange(from, self.next + 1).last() == digest@);
                assert(values(self.to_check@).len() == self.to_check@.len());
            }
            let known = cache.get(&digest, now);
            match known {
                Some(state) => {
                    let exists = match state {
                        DigestRemoteState::ExistsOnRemote => true,
                        DigestRemoteState::Missing => false,
                    };
                    self.states.insert(digest, exists);
                },
                None => {
                    let ghost before = self.to_check@;
                    self.to_check.push(digest);
                    assert(values(self.to_check@) =~= values(before).push(digest@));
                },
            }
            self.next = self.next + 1;
        }
        proof {
            let taken = all.subrange(from, self.next as int);
            assert(values(self.to_check@).len() == self.to_check@.len());
            assert forall|i: int| 0 <= i < self.next implies self.states@.contains_key(
                #[trigger] all[i],
            ) || values(self.to_check@).contains(all[i]) by {
                known_are_remembered(first.states, taken, entries, all[i]);
                unknown_are_not_remembered(taken, entries, all[i]);
                if i >= from {
                    assert(taken[i - from] == all[i]);
                } else {
                    assert(first.states.contains_key(all[i]) || first.to_check.contains(all[i]));
                }
            }
        }
        if self.to_check.len() == 0 {
            return None;
        }
        let mut blob_digests: Vec<Digest> = Vec::new();
        let mut i: usize = 0;
        assert(wire_values(blob_digests@) =~= values(self.to_check@).take(0));
        while i < self.to_check.len()
            invariant
                i <= self.to_check@.len(),
                wire_values(blob_digests@) == values(self.to_check@).take(i as int),
            decreases self.to_check@.len() - i,
        {
            let wire = tdigest_to(self.to_check[i].clone());
            let ghost before = blob_digests@;
            blob_digests.push(wire);
            assert(wire_values(blob_digests@) =~= wire_values(before).push(wire@));
            assert(wire_values(blob_digests@) =~= values(self.to_check@).take(i + 1));
            i = i + 1;
        }
        assert(wire_values(blob_digests@) =~= values(self.to_check@));
        Some(
            FindMissingBlobsRequest {
                instance_name: instance_name.as_str().to_owned(),
                blob_digests,
            },
        )
    }

    /// Takes in which blobs the store lacks. All that were asked about and are not
    /// among them are there.
    pub fn accept(
        &mut self,
        missing_blob_digests: Vec<Digest>,
        cache: &mut FindMissingCache,
        now: Duration,
    )
        requires
            old(self).wf(),
            old(cache).wf(),
        ensures
            final(self).wf(),
            final(cache).wf(),
            final(self)@ == old(self)@.told(wire_values(missing_blob_digests@)),
            final(cache)@ == put_all(
                put_all(old(cache)@, old(self)@.to_check, true, now),
                wire_values(missing_blob_digests@),
                false,
                now,
            ),
    {
        let ghost first = self@;
        let ghost remembered = cache@;
        let ghost asked = values(self.to_check@);
        let mut i: usize = 0;
        assert(asked.take(0) =~= Seq::empty());
        while i < self.to_check.len()
            invariant
                i <= self.to_check@.len(),
                asked == values(self.to_check@),
                first == (TtlProgress { states: first.states, ..self@ }),
                cache.wf(),
                self.states@ == with_all(first.states, asked.take(i as int), true),
                cache@ == put_all(remembered, asked.take(i as int), true, now),
            decreases self.to_check@.len() - i,
        {
            let digest = self.to_check[i].clone();
            assert(asked.take(i + 1).drop_last() =~= asked.take(i as int));
            self.states.insert(digest.clone(), true);
            cache.put(digest, DigestRemoteState::ExistsOnRemote, now);
            i = i + 1;
        }
        assert(asked.take(i as int) =~= asked);
        let ghost all = wire_values(missing_blob_digests@);
        let ghost missing = missing_blob_digests@;
        let ghost there = self.states@;
        let ghost stored = cache@;
        assert(all.take(0) =~= Seq::empty());
        for wire in it: missing_blob_digests.into_iter()
            invariant
                it.seq() == missing,
                all == wire_values(missing),
                first == (TtlProgress { states: first.states, ..self@ }),
                cache.wf(),
                self.states@ == with_all(there, all.take(it.index() as int), false),
                cache@ == put_all(stored, all.take(it.index() as int), false, now),
        {
            assert(all[it.index() as int] == wire@);
            assert(all.take(it.index() + 1).drop_last() =~= all.take(it.index() as int));
            let digest = tdigest_from(wire);
            self.states.insert(digest.clone(), false);
            cache.put(digest, DigestRemoteState::Missing, now);
        }
        assert(all.take(all.len() as int) =~= all);
        self.to_check.clear();
        proof {
            assert(values(self.to_check@) =~= Seq::empty());
            assert forall|i: int| 0 <= i < first.next implies self.states@.contains_key(
                #[trigger] first.digests[i],
            ) by {
                all_are_known(first.states, asked, true, first.digests[i]);
                all_are_known(there, all, false, first.digests[i]);
            }
        }
    }

    /// The answer: every digest that is known, once, with its time to live.
    pub fn finish(self, cas_ttl_secs: i64) -> (answer: Vec<DigestWithTtl>)
        requires
            self.wf(),
        ensures
            answers(self@.states, cas_ttl_secs, answer@),
    {
        let ghost states = self.states@;
        let entries = self.states.into_entries();
        let ghost all = entries@;
        let mut answer: Vec<DigestWithTtl> = Vec::new();
        for entry in it: entries.into_iter()
            invariant
                it.seq() == all,
                answer@.len() == it.index(),
                forall|i: int|
                    0 <= i < answer@.len() ==> {
                        &&& (#[trigger] answer@[i]).digest@ == all[i].0@
                        &&& answer@[i].ttl == if all[i].1 {
                            cas_ttl_secs
                        } else {
                            0
                        }
                    },
        {
            let (digest, exists) = entry;
            answer.push(
                DigestWithTtl {
                    digest,
                    ttl: if exists {
                        cas_ttl_secs
                    } else {
                        0
                    },
                },
            );
        }
        proof {
            assert forall|i: int| 0 <= i < answer@.len() implies {
                &&& states.contains_key((#[trigger] answer@[i]).digest@)
                &&& answer@[i].ttl == if states[answer@[i].digest@] {
                    cas_ttl_secs
                } else {
                    0
                }
            } by {
                entries_are_found(all, answer@[i].digest@);
                assert(all[i].0@ == answer@[i].digest@);
            }
            assert forall|i: int, j: int| 0 <= i < j < answer@.len() implies (
            #[trigger] answer@[i]).digest@ != (#[trigger] answer@[j]).digest@ by {
                assert(all[i].0@ != all[j].0@);
            }
            assert forall|key: DigestValue| states.contains_key(key) implies exists|i: int|
                0 <= i < answer@.len() && (#[trigger] answer@[i]).digest@ == key by {
                entries_are_found(all, key);
                let i = choose|i: int| 0 <= i < all.len() && (#[trigger] all[i]).0@ == key;
                assert(answer@[i].digest@ == key);
            }
        }
        answer
    }
}

/// Looking further sorts the digests that it comes to: those that are remembered are
/// known by that, and the store is asked about the others, in order. It asks about no
/// more than the limit, stops short of the end only for a full request and at the digest
/// that fills it, and always gets somewhere.
pub proof fn lookups_ask_about_what_is_unknown(
    before: TtlProgress,
    entries: Seq<(DigestValue, bool)>,
    later: TtlProgress,
    key: DigestValue,
)
    requires
        before.looks_further(entries, later),
        before.limit > 0,
    ensures
        ({
            let taken = before.digests.subrange(before.next as int, later.next as int);
            &&& later.digests == before.digests
            &&& later.to_check == taken.filter(
                |digest: DigestValue| lookup(entries, digest) is None,
            )
            &&& later.to_check.len() <= before.limit
            &&& later.next < before.digests.len() ==> later.to_check.len() == before.limit
            &&& before.next < before.digests.len() ==> before.next < later.next
            &&& before.next < later.next && later.to_check.len() == before.limit ==> lookup(
                entries,
                taken.last(),
            ) is None
            &&& taken.contains(key) && lookup(entries, key) is Some
                ==> later.states.contains_key(key) && later.states[key] == lookup(entries, key)->0
            &&& !taken.contains(key) || lookup(entries, key) is None ==> (
            later.states.contains_key(key) <==> before.states.contains_key(key)) && (
            before.states.contains_key(key) ==> later.states[key] == before.states[key])
        }),
{
    let taken = before.taken(later);
    unknown_keep_their_order(taken, entries);
    known_are_remembered(before.states, taken, entries, key);
    if before.next == later.next {
        assert(taken =~= Seq::empty());
    }
}

proof fn unknown_keep_their_order(
    digests: Seq<DigestValue>,
    entries: Seq<(DigestValue, bool)>,
)
    ensures
        unknown(digests, entries) == digests.filter(
            |digest: DigestValue| lookup(entries, digest) is None,
        ),
    decreases digests.len(),
{
    reveal(Seq::filter);
    if digests.len() > 0 {
        unknown_keep_their_order(digests.drop_last(), entries);
    }
}

/// Hearing the store settles every digest that it was asked about: what it reports is
/// missing, the rest is there. Nothing is left to ask, and nothing else changes.
pub proof fn the_store_settles_what_it_was_asked(
    progress: TtlProgress,
    missing: Seq<DigestValue>,
    key: DigestValue,
)
    ensures
        ({
            let told = progress.told(missing);
            &&& told.to_check.len() == 0
            &&& told.digests == progress.digests
            &&& told.next == progress.next
            &&& told.limit == progress.limit
            &&& missing.contains(key) ==> told.states.contains_key(key) && !told.states[key]
            &&& progress.to_check.contains(key) && !missing.contains(key)
                ==> told.states.contains_key(key) && told.states[key]
            &&& !progress.to_check.contains(key) && !missing.contains(key) ==> (
            told.states.contains_key(key) <==> progress.states.contains_key(key)) && (
            progress.states.contains_key(key) ==> told.states[key] == progress.states[key])
        }),
{
    all_are_known(progress.states, progress.to_check, true, key);
    all_are_known(
        with_all(progress.states, progress.to_check, true),
        missing,
        false,
        key,
    );
}

/// The digest is among the `n` that were used last, with the given state.
spec fn is_recent(
    entries: Seq<(DigestValue, bool)>,
    n: int,
    key: DigestValue,
    exists: bool,
) -> bool {
    exists|i: int| 0 <= i < n && i < entries.len() && #[trigger] entries[i] == (key, exists)
}

proof fn without_moves_up(
    entries: Seq<(DigestValue, bool)>,
    other: DigestValue,
    i: int,
) -> (j: int)
    requires
        0 <= i < entries.len(),
        entries[i].0 != other,
    ensures
        0 <= j <= i,
        j < without(entries, other).len(),
        without(entries, other)[j] == entries[i],
    decreases entries.len(),
{
    if i == 0 {
        0
    } else {
        let j = without_moves_up(entries.drop_first(), other, i - 1);
        if entries[0].0 == other {
            j
        } else {
            j + 1
        }
    }
}

proof fn storing_keeps_what_is_recent(
    entries: Seq<(DigestValue, bool)>,
    capacity: nat,
    n: int,
    key: DigestValue,
    exists: bool,
    other: DigestValue,
    state: bool,
)
    requires
        is_recent(entries, n, key, exists),
        other != key,
        n < capacity,
    ensures
        is_recent(stored(entries, capacity, other, state), n + 1, key, exists),
{
    let i = choose|i: int|
        0 <= i < n && i < entries.len() && #[trigger] entries[i] == (key, exists);
    let after = stored(entries, capacity, other, state);
    if lookup(entries, other) is Some {
        let j = without_moves_up(entries, other, i);
        assert(after[j + 1] == (key, exists));
    } else {
        assert(after[i + 1] == (key, exists));
    }
}

proof fn putting_keeps_what_is_recent(
    cache: Remembered,
    digests: Seq<DigestValue>,
    state: bool,
    now: Duration,
    n: int,
    key: DigestValue,
    exists: bool,
)
    requires
        cache.at(now) == cache,
        0 <= n,
        n + digests.len() <= FIND_MISSING_CACHE_CAPACITY,
        is_recent(cache.entries, n, key, exists) || digests.contains(key),
    ensures
        put_all(cache, digests, state, now).at(now) == put_all(cache, digests, state, now),
        is_recent(
            put_all(cache, digests, state, now).entries,
            n + digests.len(),
            key,
            if digests.contains(key) {
                state
            } else {
                exists
            },
        ),
    decreases digests.len(),
{
    if digests.len() > 0 {
        let earlier = digests.drop_last();
        let last = digests.last();
        found_before_or_last(digests, key);
        let before = put_all(cache, earlier, state, now);
        let after = put_all(cache, digests, state, now);
        if is_recent(cache.entries, n, key, exists) || earlier.contains(key) {
            putting_keeps_what_is_recent(cache, earlier, state, now, n, key, exists);
        } else {
            putting_leaves_the_check(cache, earlier, state, now);
        }
        assert(before.at(now) == before);
        if last == key {
            assert(after.entries[0] == (key, state));
        } else {
            let said = if earlier.contains(key) {
                state
            } else {
                exists
            };
            storing_keeps_what_is_recent(
                before.entries,
                FIND_MISSING_CACHE_CAPACITY as nat,
                n + earlier.len(),
                key,
                said,
                last,
                state,
            );
        }
    }
}

proof fn putting_leaves_the_check(
    cache: Remembered,
    digests: Seq<DigestValue>,
    state: bool,
    now: Duration,
)
    requires
        cache.at(now) == cache,
    ensures
        put_all(cache, digests, state, now).at(now) == put_all(cache, digests, state, now),
        put_all(cache, digests, state, now).last_check == cache.last_check,
    decreases digests.len(),
{
    if digests.len() > 0 {
        putting_leaves_the_check(cache, digests.drop_last(), state, now);
    }
}

proof fn putting_keeps_order(
    cache: Remembered,
    digests: Seq<DigestValue>,
    state: bool,
    now: Duration,
)
    requires
        cache.wf(),
    ensures
        put_all(cache, digests, state, now).wf(),
    decreases digests.len(),
{
    if digests.len() > 0 {
        putting_keeps_order(cache, digests.drop_last(), state, now);
        storing_is_remembered(
            put_all(cache, digests.drop_last(), state, now).at(now).entries,
            FIND_MISSING_CACHE_CAPACITY as nat,
            digests.last(),
            state,
        );
    }
}

/// What the store said of a digest is remembered: right after it was heard, a digest
/// that it reported is known to be missing, and one that it was asked about and did not
/// report is known to be there, as long as so many fit.
pub proof fn what_the_store_said_is_remembered(
    cache: Remembered,
    asked: Seq<DigestValue>,
    missing: Seq<DigestValue>,
    now: Duration,
    key: DigestValue,
)
    requires
        cache.wf(),
        now@ <= cache.last_check@ + 43_200_000_000_000,
        asked.len() + missing.len() <= 500_000,
        asked.contains(key) || missing.contains(key),
    ensures
        lookup(
            put_all(put_all(cache, asked, true, now), missing, false, now).at(now).entries,
            key,
        ) == Some(!missing.contains(key)),
{
    let there = put_all(cache, asked, true, now);
    let after = put_all(there, missing, false, now);
    assert(cache.at(now) == cache);
    if asked.contains(key) {
        putting_keeps_what_is_recent(cache, asked, true, now, 0, key, true);
    } else {
        putting_leaves_the_check(cache, asked, true, now);
    }
    putting_keeps_what_is_recent(there, missing, false, now, asked.len() as int, key, true);
    putting_keeps_order(cache, asked, true, now);
    putting_keeps_order(there, missing, false, now);
    let n = asked.len() + missing.len();
    let said = !missing.contains(key);
    let i = choose|i: int|
        0 <= i < n && i < after.entries.len() && #[trigger] after.entries[i] == (key, said);
    lookups_find_the_entry(after.entries, key, i);
}

/// The store is asked exactly where something is to be checked, in the configured
/// instance, about all that is to be checked and in its order.
pub proof fn the_store_is_asked_about_what_is_to_be_checked(
    progress: TtlProgress,
    instance_name: InstanceName,
    request: Option<FindMissingBlobsRequest>,
    i: int,
)
    requires
        progress.asks(instance_name@, request),
    ensures
        request is Some <==> progress.to_check.len() > 0,
        request matches Some(find) ==> {
            &&& instance_name.0 matches Some(name) ==> find.instance_name@ == name@
            &&& instance_name.0 is None ==> find.instance_name@.len() == 0
            &&& find.blob_digests@.len() == progress.to_check.len()
            &&& 0 <= i < progress.to_check.len() ==> find.blob_digests@[i].hash@
                == progress.to_check[i].0 && find.blob_digests@[i].size_bytes
                == progress.to_check[i].1
        },
{
    if let Some(find) = request {
        if 0 <= i < progress.to_check.len() {
            assert(wire_values(find.blob_digests@)[i] == find.blob_digests@[i]@);
        }
        assert(wire_values(find.blob_digests@).len() == find.blob_digests@.len());
    }
}

} // verus!
