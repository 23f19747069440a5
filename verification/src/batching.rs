//! Putting blobs in batches by the largest message allowed.
use vstd::prelude::*;

verus! {

/// Something with a size in bytes.
pub trait Measured: Sized {
    /// The size in bytes.
    spec fn bytes(&self) -> int;

    /// The size in bytes.
    fn size_in_bytes(&self) -> (size: i64)
        ensures
            size == self.bytes(),
    ;
}

/// The sizes of a batch's items together.
pub open spec fn batch_size<T: Measured>(batch: Seq<T>) -> int
    decreases batch.len(),
{
    if batch.len() == 0 {
        0
    } else {
        batch_size(batch.drop_last()) + batch.last().bytes()
    }
}

/// Batches that are full, and the one that is being filled.
pub ghost struct Batches<T> {
    pub full: Seq<Seq<T>>,
    pub current: Seq<T>,
}

/// No batches.
pub open spec fn no_batches<T>() -> Batches<T> {
    Batches { full: Seq::empty(), current: Seq::empty() }
}

impl<T: Measured> Batches<T> {
    /// The batches with one more item. An item that brings the current batch to
    /// `max` starts a new one.
    pub open spec fn with(self, item: T, max: int) -> Batches<T> {
        if batch_size(self.current) + item.bytes() >= max {
            Batches { full: self.full.push(self.current), current: seq![item] }
        } else {
            Batches { current: self.current.push(item), ..self }
        }
    }

    /// All batches, without a last one that is empty.
    pub open spec fn all(self) -> Seq<Seq<T>> {
        if self.current.len() > 0 {
            self.full.push(self.current)
        } else {
            self.full
        }
    }
}

/// The batches that a sequence of items is put in.
pub open spec fn batched<T: Measured>(items: Seq<T>, max: int) -> Batches<T>
    decreases items.len(),
{
    if items.len() == 0 {
        no_batches()
    } else {
        batched(items.drop_last(), max).with(items.last(), max)
    }
}

/// The contents of a list of batches.
pub open spec fn batch_contents<T>(batches: Seq<Vec<T>>) -> Seq<Seq<T>> {
    batches.map_values(|batch: Vec<T>| batch@)
}

/// The items that batches hold, in order.
pub open spec fn flattened<T>(batches: Seq<Seq<T>>) -> Seq<T>
    decreases batches.len(),
{
    if batches.len() == 0 {
        Seq::empty()
    } else {
        flattened(batches.drop_last()) + batches.last()
    }
}

/// Puts items in batches.
#[derive(Debug)]
pub struct Batcher<T> {
    max: i64,
    current: Vec<T>,
    full: Vec<Vec<T>>,
    current_size: i128,
}

impl<T> View for Batcher<T> {
    type V = Batches<T>;

    closed spec fn view(&self) -> Batches<T> {
        Batches { full: batch_contents(self.full@), current: self.current@ }
    }
}

proof fn batch_size_is_bounded<T: Measured>(batch: Seq<T>)
    requires
        forall|i: int| 0 <= i < batch.len() ==> i64::MIN <= (#[trigger] batch[i]).bytes() <= i64::MAX,
    ensures
        -0x8000_0000_0000_0000 * batch.len() <= batch_size(batch),
        batch_size(batch) <= 0x7fff_ffff_ffff_ffff * batch.len(),
    decreases batch.len(),
{
    if batch.len() > 0 {
        assert forall|i: int| 0 <= i < batch.drop_last().len() implies i64::MIN <= (
        #[trigger] batch.drop_last()[i]).bytes() <= i64::MAX by {
            assert(batch[i].bytes() <= i64::MAX);
        }
        batch_size_is_bounded(batch.drop_last());
        assert(batch[batch.len() - 1].bytes() <= i64::MAX);
    }
}

impl<T: Measured> Batcher<T> {
    /// The size at which a batch is full.
    pub closed spec fn limit(self) -> i64 {
        self.max
    }

    /// The running size is that of the current batch.
    pub closed spec fn wf(self) -> bool {
        &&& self.current_size == batch_size(self.current@)
        &&& forall|i: int|
            0 <= i < self.current@.len() ==> i64::MIN <= (#[trigger] self.current@[i]).bytes()
                <= i64::MAX
    }

    /// No batches yet.
    pub fn new(max: i64) -> (batcher: Self)
        ensures
            batcher.wf(),
            batcher@ == no_batches::<T>(),
            batcher.limit() == max,
    {
        let batcher = Batcher {
            max,
            current: Vec::new(),
            full: Vec::new(),
            current_size: 0,
        };
        assert(batch_contents(batcher.full@) =~= Seq::empty());
        batcher
    }

    /// Adds one item.
    pub fn push(&mut self, item: T)
        requires
            old(self).wf(),
        ensures
            final(self).wf(),
            final(self).limit() == old(self).limit(),
            final(self)@ == old(self)@.with(item, old(self).limit() as int),
    {
        let size: i64 = item.size_in_bytes();
        let current_len: usize = self.current.len();
        proof {
            batch_size_is_bounded(self.current@);
            assert(current_len <= 0xffff_ffff_ffff_ffff);
        }
        let ghost before = self.full@;
        let ghost current = self.current@;
        self.current_size = self.current_size + size as i128;
        if self.current_size >= self.max as i128 {
            let mut filled: Vec<T> = Vec::new();
            std::mem::swap(&mut filled, &mut self.current);
            self.full.push(filled);
            self.current_size = size as i128;
            assert(batch_contents(self.full@) =~= batch_contents(before).push(current));
        }
        let ghost kept = self.current@;
        self.current.push(item);
        proof {
            assert(self.current@.drop_last() =~= kept);
            assert(batch_size(Seq::<T>::empty()) == 0);
            assert(self@.current =~= old(self)@.with(item, old(self).limit() as int).current);
            assert(self@.full =~= old(self)@.with(item, old(self).limit() as int).full);
        }
    }

    /// All batches.
    pub fn done(self) -> (batches: Vec<Vec<T>>)
        ensures
            batch_contents(batches@) == self@.all(),
    {
        let mut full = self.full;
        if self.current.len() > 0 {
            let ghost before = full@;
            full.push(self.current);
            assert(batch_contents(full@) =~= batch_contents(before).push(self.current@));
        }
        full
    }
}

proof fn flattened_with_current<T: Measured>(items: Seq<T>, max: int)
    ensures
        flattened(batched(items, max).full) + batched(items, max).current =~= items,
        batched(items, max).current.len() > 1 ==> batch_size(batched(items, max).current) < max,
        forall|i: int|
            0 <= i < batched(items, max).full.len() ==> {
                let batch = #[trigger] batched(items, max).full[i];
                batch.len() > 1 ==> batch_size(batch) < max
            },
    decreases items.len(),
{
    if items.len() > 0 {
        flattened_with_current(items.drop_last(), max);
        let before = batched(items.drop_last(), max);
        let after = batched(items, max);
        assert(items.drop_last().push(items.last()) =~= items);
        if batch_size(before.current) + items.last().bytes() >= max {
            assert(after.full.drop_last() =~= before.full);
        } else {
            assert(after.current.drop_last() =~= before.current);
        }
    }
}

/// Batching loses no item, doubles none and keeps their order, and a batch of
/// several items stays below the limit.
pub proof fn batches_hold_every_item<T: Measured>(items: Seq<T>, max: int)
    ensures
        flattened(batched(items, max).all()) == items,
        forall|i: int|
            0 <= i < batched(items, max).all().len() ==> {
                let batch = #[trigger] batched(items, max).all()[i];
                batch.len() > 1 ==> batch_size(batch) < max
            },
{
    flattened_with_current(items, max);
    let b = batched(items, max);
    if b.current.len() > 0 {
        assert(b.all().drop_last() =~= b.full);
        assert(b.all().last() == b.current);
    } else {
        assert(flattened(b.full) + b.current =~= flattened(b.full));
    }
}

/// Where every item alone is below the limit, no batch is empty.
pub proof fn batches_are_not_empty<T: Measured>(items: Seq<T>, max: int)
    requires
        forall|i: int| 0 <= i < items.len() ==> (#[trigger] items[i]).bytes() < max,
    ensures
        forall|i: int|
            0 <= i < batched(items, max).all().len() ==> (
            #[trigger] batched(items, max).all()[i]).len() > 0,
        batched(items, max).full.len() > 0 ==> batched(items, max).current.len() > 0,
    decreases items.len(),
{
    if items.len() > 0 {
        let before = batched(items.drop_last(), max);
        assert forall|i: int| 0 <= i < items.drop_last().len() implies (
        #[trigger] items.drop_last()[i]).bytes() < max by {
            assert(items[i].bytes() < max);
        }
        batches_are_not_empty(items.drop_last(), max);
        assert(items[items.len() - 1].bytes() < max);
        assert(before.current.len() == 0 ==> batch_size(before.current) == 0);
        assert forall|i: int| 0 <= i < batched(items, max).all().len() implies (
        #[trigger] batched(items, max).all()[i]).len() > 0 by {
            if i < before.all().len() {
                assert(before.all()[i].len() > 0);
            }
        }
    }
}

/// Batches are as full as they may be: together with the first item of the next batch,
/// a batch would have reached the limit.
pub proof fn batches_are_filled_up<T: Measured>(items: Seq<T>, max: int, i: int)
    requires
        0 <= i < batched(items, max).all().len() - 1,
    ensures
        batched(items, max).all()[i + 1].len() > 0,
        batch_size(batched(items, max).all()[i]) + batched(items, max).all()[i + 1][0].bytes()
            >= max,
    decreases items.len(),
{
    if items.len() > 0 {
        let before = batched(items.drop_last(), max);
        let after = batched(items, max);
        some_batch_is_current(items, max);
        if items.len() > 1 {
            some_batch_is_current(items.drop_last(), max);
        }
        if batch_size(before.current) + items.last().bytes() >= max {
            if i < before.full.len() {
                if items.len() > 1 {
                    assert(before.all()[i] == after.all()[i]);
                    assert(before.all()[i + 1] == after.all()[i + 1]);
                    batches_are_filled_up(items.drop_last(), max, i);
                }
            } else {
                assert(after.all()[i] == before.current);
            }
        } else {
            if i < before.full.len() {
                assert(before.all()[i] == after.all()[i]);
                batches_are_filled_up(items.drop_last(), max, i);
                if i + 1 == before.full.len() {
                    assert(after.all()[i + 1] == before.current.push(items.last()));
                } else {
                    assert(before.all()[i + 1] == after.all()[i + 1]);
                }
            }
        }
    }
}

proof fn some_batch_is_current<T: Measured>(items: Seq<T>, max: int)
    ensures
        items.len() > 0 ==> batched(items, max).current.len() > 0,
        items.len() == 0 ==> batched(items, max).all().len() == 0,
{
}

/// The size of a batch is the sum of its items' sizes.
pub proof fn batch_sizes_add_up<T: Measured>(batch: Seq<T>, item: T)
    ensures
        batch_size(Seq::<T>::empty()) == 0,
        batch_size(batch.push(item)) == batch_size(batch) + item.bytes(),
{
    assert(batch.push(item).drop_last() =~= batch);
}

/// The contents of batches are what stands in them, one batch after the other.
pub proof fn contents_follow_one_another<T>(batches: Seq<Seq<T>>)
    ensures
        flattened(batches) == batches.flatten(),
{
    contents_in_a_row(batches);
    batches.lemma_flatten_and_flatten_alt_are_equivalent();
}

proof fn contents_in_a_row<T>(batches: Seq<Seq<T>>)
    ensures
        flattened(batches) == batches.flatten_alt(),
    decreases batches.len(),
{
    if batches.len() > 0 {
        contents_in_a_row(batches.drop_last());
    }
}

} // verus!
