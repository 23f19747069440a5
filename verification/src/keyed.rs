//! Maps and sets of keys that are compared by what they say.
use vstd::prelude::*;

verus! {

/// Something that stands for what its view says.
pub trait Key: View + Sized {
    /// Reports whether two keys say the same.
    fn same_key(&self, other: &Self) -> (same: bool)
        ensures
            same == (self@ == other@),
    ;
}

/// No key stands twice.
pub open spec fn has_no_twins<K: View, V>(entries: Seq<(K, V)>) -> bool {
    forall|i: int, j: int|
        0 <= i < j < entries.len() ==> (#[trigger] entries[i]).0@ != (#[trigger] entries[j]).0@
}

/// The values by key.
pub open spec fn by_key<K: View, V>(entries: Seq<(K, V)>) -> Map<K::V, V>
    decreases entries.len(),
{
    if entries.len() == 0 {
        Map::empty()
    } else {
        by_key(entries.drop_last()).insert(entries.last().0@, entries.last().1)
    }
}

/// Where no key stands twice, a key is in the map exactly where it has an entry, and
/// its value is that of the entry.
pub proof fn entries_are_found<K: View, V>(entries: Seq<(K, V)>, key: K::V)
    requires
        has_no_twins(entries),
    ensures
        by_key(entries).contains_key(key) <==> exists|i: int|
            0 <= i < entries.len() && (#[trigger] entries[i]).0@ == key,
        forall|i: int|
            0 <= i < entries.len() && (#[trigger] entries[i]).0@ == key ==> by_key(entries)[key]
                == entries[i].1,
    decreases entries.len(),
{
    if entries.len() > 0 {
        let before = entries.drop_last();
        assert forall|i: int, j: int| 0 <= i < j < before.len() implies (#[trigger] before[i]).0@
            != (#[trigger] before[j]).0@ by {
            assert(entries[i].0@ != entries[j].0@);
        }
        entries_are_found(before, key);
        if entries.last().0@ == key {
            assert(entries[entries.len() - 1].0@ == key);
        } else {
            assert forall|i: int| 0 <= i < entries.len() && (#[trigger] entries[i]).0@
                == key implies by_key(entries)[key] == entries[i].1 by {
                assert(before[i] == entries[i]);
            }
            if by_key(before).contains_key(key) {
                let i = choose|i: int| 0 <= i < before.len() && (#[trigger] before[i]).0@ == key;
                assert(entries[i].0@ == key);
            }
            assert forall|i: int| 0 <= i < entries.len() && (#[trigger] entries[i]).0@
                == key implies by_key(entries).contains_key(key) by {
                assert(before[i].0@ == key);
            }
        }
    }
}

/// Where no key stands twice, there are as many keys as entries.
pub proof fn entries_are_counted<K: View, V>(entries: Seq<(K, V)>)
    requires
        has_no_twins(entries),
    ensures
        by_key(entries).dom().finite(),
        by_key(entries).dom().len() == entries.len(),
    decreases entries.len(),
{
    if entries.len() > 0 {
        let before = entries.drop_last();
        assert forall|i: int, j: int| 0 <= i < j < before.len() implies (#[trigger] before[i]).0@
            != (#[trigger] before[j]).0@ by {
            assert(entries[i].0@ != entries[j].0@);
        }
        entries_are_counted(before);
        let key = entries.last().0@;
        entries_are_found(before, key);
        assert(!by_key(before).contains_key(key)) by {
            if by_key(before).contains_key(key) {
                let i = choose|i: int| 0 <= i < before.len() && (#[trigger] before[i]).0@ == key;
                assert(entries[i].0@ != entries[entries.len() - 1].0@);
            }
        }
        assert(by_key(entries).dom() =~= by_key(before).dom().insert(key));
    }
}

/// The entries once a value was put under a key: a key that has none yet comes last,
/// and one that has stays where it is and as it is, with its value replaced.
pub open spec fn with_entry<K: View, V>(entries: Seq<(K, V)>, key: K, value: V) -> Seq<(K, V)> {
    if by_key(entries).contains_key(key@) {
        entries.map_values(
            |entry: (K, V)|
                if entry.0@ == key@ {
                    (entry.0, value)
                } else {
                    entry
                },
        )
    } else {
        entries.push((key, value))
    }
}

proof fn one_entry_changed<K: View, V>(
    before: Seq<(K, V)>,
    after: Seq<(K, V)>,
    i: int,
    key: K::V,
    value: V,
)
    requires
        has_no_twins(before),
        0 <= i <= before.len(),
        i < before.len() ==> before[i].0@ == key && after.len() == before.len(),
        i == before.len() ==> after.len() == before.len() + 1,
        forall|j: int| 0 <= j < before.len() && j != i ==> before[j].0@ != key,
        forall|j: int| 0 <= j < before.len() && j != i ==> after[j] == before[j],
        after[i].0@ == key,
        after[i].1 == value,
    ensures
        has_no_twins(after),
        by_key(after) =~= by_key(before).insert(key, value),
{
    assert forall|a: int, b: int| 0 <= a < b < after.len() implies (#[trigger] after[a]).0@ != (
    #[trigger] after[b]).0@ by {
        if a < before.len() && b < before.len() {
            assert(before[a].0@ != before[b].0@);
        }
    }
    assert forall|k: K::V|
        #![trigger by_key(after).contains_key(k)]
        {
            &&& by_key(after).contains_key(k) == by_key(before).insert(key, value).contains_key(k)
            &&& by_key(after).contains_key(k) ==> by_key(after)[k] == by_key(before).insert(
                key,
                value,
            )[k]
        } by {
        entries_are_found(before, k);
        entries_are_found(after, k);
        if k == key {
            assert(after[i].0@ == k);
        } else {
            if by_key(before).contains_key(k) {
                let j = choose|j: int| 0 <= j < before.len() && (#[trigger] before[j]).0@ == k;
                assert(after[j] == before[j]);
            }
            if by_key(after).contains_key(k) {
                let j = choose|j: int| 0 <= j < after.len() && (#[trigger] after[j]).0@ == k;
                assert(before[j] == after[j]);
            }
        }
    }
}

/// Values by key, in the order in which the keys came in.
#[derive(Debug)]
pub struct KeyedMap<K: Key, V> {
    entries: Vec<(K, V)>,
}

impl<K: Key, V> View for KeyedMap<K, V> {
    type V = Map<K::V, V>;

    closed spec fn view(&self) -> Map<K::V, V> {
        by_key(self.entries@)
    }
}

impl<K: Key, V> KeyedMap<K, V> {
    #[verifier::type_invariant]
    spec fn is_keyed(self) -> bool {
        has_no_twins(self.entries@)
    }

    /// The entries, in the order in which their keys came in.
    pub closed spec fn entries(self) -> Seq<(K, V)> {
        self.entries@
    }

    /// An empty map.
    pub fn new() -> (map: Self)
        ensures
            map@ == Map::<K::V, V>::empty(),
            map.entries() == Seq::<(K, V)>::empty(),
    {
        KeyedMap { entries: Vec::new() }
    }

    fn position(&self, key: &K) -> (at: usize)
        ensures
            at <= self.entries@.len(),
            at < self.entries@.len() ==> self.entries@[at as int].0@ == key@,
            at == self.entries@.len() ==> !self@.contains_key(key@),
            forall|j: int| 0 <= j < at ==> (#[trigger] self.entries@[j]).0@ != key@,
    {
        proof {
            use_type_invariant(self);
            entries_are_found(self.entries@, key@);
        }
        let mut at: usize = 0;
        while at < self.entries.len()
            invariant
                at <= self.entries@.len(),
                forall|j: int| 0 <= j < at ==> (#[trigger] self.entries@[j]).0@ != key@,
            decreases self.entries@.len() - at,
        {
            if self.entries[at].0.same_key(key) {
                return at;
            }
            at = at + 1;
        }
        at
    }

    /// The value under a key.
    pub fn get(&self, key: &K) -> (value: Option<&V>)
        ensures
            self@.contains_key(key@) ==> value == Some(&self@[key@]),
            !self@.contains_key(key@) ==> value is None,
    {
        proof {
            use_type_invariant(self);
            entries_are_found(self.entries@, key@);
        }
        let at: usize = self.position(key);
        if at < self.entries.len() {
            Some(&self.entries[at].1)
        } else {
            None
        }
    }

    /// Reports whether a key has a value.
    pub fn contains(&self, key: &K) -> (found: bool)
        ensures
            found == self@.contains_key(key@),
    {
        self.get(key).is_some()
    }

    /// Puts a value under a key, in place of an earlier one. A key that is there
    /// already stays, in its place.
    pub fn insert(&mut self, key: K, value: V)
        ensures
            final(self)@ == old(self)@.insert(key@, value),
            final(self).entries() == with_entry(old(self).entries(), key, value),
    {
        proof {
            use_type_invariant(&*self);
        }
        let at: usize = self.position(&key);
        let mut entries: Vec<(K, V)> = Vec::new();
        std::mem::swap(&mut entries, &mut self.entries);
        let ghost before = entries@;
        let ghost name = key@;
        if at < entries.len() {
            entries[at].1 = value;
        } else {
            entries.push((key, value));
        }
        proof {
            assert forall|j: int| 0 <= j < before.len() && j != at implies before[j].0@ != name by {
                if j > at {
                    assert(before[at as int].0@ != before[j].0@);
                }
            }
            one_entry_changed(before, entries@, at as int, name, value);
            entries_are_found(before, name);
            assert(entries@ =~= with_entry(before, key, value));
        }
        self.entries = entries;
    }

    /// Puts a value under a key that has none yet.
    pub fn insert_new(&mut self, key: K, value: V)
        ensures
            final(self)@ == if old(self)@.contains_key(key@) {
                old(self)@
            } else {
                old(self)@.insert(key@, value)
            },
            final(self).entries() == if old(self)@.contains_key(key@) {
                old(self).entries()
            } else {
                old(self).entries().push((key, value))
            },
    {
        if !self.contains(&key) {
            self.insert(key, value);
        }
    }

    /// How many keys have a value.
    pub fn len(&self) -> (len: usize)
        ensures
            len == self.entries().len(),
            has_no_twins(self.entries()),
            by_key(self.entries()) == self@,
    {
        proof {
            use_type_invariant(self);
        }
        self.entries.len()
    }

    /// The entry at a position.
    pub fn entry(&self, at: usize) -> (entry: (&K, &V))
        requires
            at < self.entries().len(),
        ensures
            entry.0 == self.entries()[at as int].0,
            entry.1 == self.entries()[at as int].1,
    {
        (&self.entries[at].0, &self.entries[at].1)
    }

    /// All entries, in order.
    pub fn into_entries(self) -> (entries: Vec<(K, V)>)
        ensures
            entries@ == self.entries(),
            has_no_twins(entries@),
            by_key(entries@) == self@,
    {
        proof {
            use_type_invariant(&self);
        }
        self.entries
    }
}

/// Putting a value under a key keeps every other entry as it is and in its place: a key
/// that has an entry keeps that too, with the new value, and a new key comes last.
pub proof fn entries_keep_their_place<K: View, V>(
    entries: Seq<(K, V)>,
    key: K,
    value: V,
    i: int,
)
    requires
        has_no_twins(entries),
    ensures
        ({
            let after = with_entry(entries, key, value);
            let known = exists|j: int|
                0 <= j < entries.len() && (#[trigger] entries[j]).0@ == key@;
            &&& known ==> after.len() == entries.len()
            &&& !known ==> after.len() == entries.len() + 1 && after.last() == (key, value)
            &&& 0 <= i < entries.len() ==> after[i].0 == entries[i].0
            &&& 0 <= i < entries.len() && entries[i].0@ != key@ ==> after[i].1 == entries[i].1
            &&& 0 <= i < entries.len() && entries[i].0@ == key@ ==> after[i].1 == value
        }),
{
    entries_are_found(entries, key@);
}

} // verus!
