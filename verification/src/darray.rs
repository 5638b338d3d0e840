//! The double-ended array: a window over a backing store.

use crate::dslice::{
    grown, shifted_left, shifted_right, zeros, DSlice, INCREMENTAL_CAPACITY, INITIAL_CAPACITY,
};
use crate::error::DArrayError;
use crate::laws::{
    lemma_insert_elements, lemma_push_end_elements, lemma_push_start_elements,
    lemma_remove_elements,
};
use vstd::prelude::*;

verus! {

/// A double-ended array of `u64` values.
///
/// The stored elements occupy the physical slots `[begin, end)` of the
/// backing store; the element at logical index `i` sits in slot `begin + i`.
/// Slots outside the window are slack: they hold leftovers and are never read.
#[derive(Debug)]
pub struct DArray {
    array: DSlice,
    begin: usize,
    end: usize,
}

impl View for DArray {
    type V = Seq<u64>;

    /// The stored elements in logical order.
    open spec fn view(&self) -> Seq<u64> {
        self.slots().subrange(self.begin_index() as int, self.end_index() as int)
    }
}

impl DArray {
    /// All slots of the backing store, by physical index.
    pub closed spec fn slots(&self) -> Seq<u64> {
        self.array@
    }

    /// Physical index of the first stored element.
    pub closed spec fn begin_index(&self) -> usize {
        self.begin
    }

    /// Physical index one past the last stored element.
    pub closed spec fn end_index(&self) -> usize {
        self.end
    }

    /// Number of slots of the backing store.
    pub open spec fn capacity(&self) -> nat {
        self.slots().len()
    }

    /// The window lies inside the backing store, whose capacity is a multiple
    /// of the growth step and never below the initial capacity.
    pub open spec fn wf(&self) -> bool {
        &&& self.begin_index() <= self.end_index() <= self.capacity()
        &&& self.capacity() >= INITIAL_CAPACITY
        &&& self.capacity() % (INCREMENTAL_CAPACITY as nat) == 0
    }

    /// Creates an empty array whose window sits in the middle of a fresh
    /// store, with the same slack on both sides.
    pub fn new() -> (a: Self)
        ensures
            a.wf(),
            a@ == Seq::<u64>::empty(),
            a.begin_index() == INITIAL_CAPACITY / 2,
            a.end_index() == INITIAL_CAPACITY / 2,
            a.slots() == zeros(INITIAL_CAPACITY as nat),
    {
        DArray { array: DSlice::new(), begin: INITIAL_CAPACITY / 2, end: INITIAL_CAPACITY / 2 }
    }

    /// Number of stored elements.
    pub fn len(&self) -> (n: usize)
        requires
            self.wf(),
        ensures
            n == self@.len(),
            n == self.end_index() - self.begin_index(),
    {
        self.end - self.begin
    }

    /// Physical index of the slot that belongs to logical index `index`.
    pub fn map_index(&self, index: usize) -> (physical: usize)
        requires
            self.begin_index() + index <= usize::MAX,
        ensures
            physical == self.begin_index() + index,
    {
        self.begin + index
    }

    /// Reads the element at logical index `index`.
    pub fn get(&self, index: usize) -> (r: Result<u64, DArrayError>)
        requires
            self.wf(),
        ensures
            index < self@.len() ==> r == Ok::<u64, DArrayError>(self@[index as int]),
            index >= self@.len() ==> r == Err::<u64, DArrayError>(
                (DArrayError::IndexOutOfBounds { index, len: self@.len() as usize }),
            ),
    {
        let len: usize = self.end - self.begin;
        if index >= len {
            return Err(DArrayError::IndexOutOfBounds { index, len });
        }
        let slot: usize = self.map_index(index);
        Ok(self.array[slot])
    }

    /// Holds of `after` when it has the cursors and the capacity that `self`
    /// gets by taking one more slot at the high end: the store grows by one
    /// step exactly when the window already touches its end, and the window
    /// does not move.
    pub open spec fn extends_at_end(&self, after: &DArray) -> bool {
        &&& after.begin_index() == self.begin_index()
        &&& after.end_index() == self.end_index() + 1
        &&& if self.end_index() == self.capacity() {
            after.capacity() == self.capacity() + INCREMENTAL_CAPACITY
        } else {
            after.capacity() == self.capacity()
        }
    }

    /// Holds of `after` when it has the cursors and the capacity that `self`
    /// gets by taking one more slot at the low end: when the window starts at
    /// slot zero the store grows by one step and the window moves up by that
    /// step first.
    pub open spec fn extends_at_start(&self, after: &DArray) -> bool {
        if self.begin_index() == 0 {
            &&& after.begin_index() == INCREMENTAL_CAPACITY - 1
            &&& after.end_index() == self.end_index() + INCREMENTAL_CAPACITY
            &&& after.capacity() == self.capacity() + INCREMENTAL_CAPACITY
        } else {
            &&& after.begin_index() == self.begin_index() - 1
            &&& after.end_index() == self.end_index()
            &&& after.capacity() == self.capacity()
        }
    }

    /// Holds of `after` when it has the cursors and the capacity that `self`
    /// gets by giving up the last slot of its window: the window start and
    /// the store stay as they are.
    pub open spec fn retracts_at_end(&self, after: &DArray) -> bool {
        &&& after.begin_index() == self.begin_index()
        &&& after.end_index() == self.end_index() - 1
        &&& after.capacity() == self.capacity()
    }

    /// The slots with room for one more element at the high end: grown by one
    /// step when the window touches the end of the store, else as they are.
    pub open spec fn slots_with_room_at_end(&self) -> Seq<u64> {
        if self.end_index() == self.capacity() {
            grown(self.slots())
        } else {
            self.slots()
        }
    }

    /// The slots after `value` has been appended: it is written just past the
    /// window.
    pub open spec fn slots_after_push_end(&self, value: u64) -> Seq<u64> {
        self.slots_with_room_at_end().update(self.end_index() as int, value)
    }

    /// The slots after `value` has been prepended: it is written just below
    /// the window, which, when it starts at slot zero, is first moved up by
    /// one growth step inside the grown store.
    pub open spec fn slots_after_push_start(&self, value: u64) -> Seq<u64> {
        if self.begin_index() == 0 {
            shifted_right(
                grown(self.slots()),
                0,
                self.end_index() as int,
                INCREMENTAL_CAPACITY as int,
            ).update(INCREMENTAL_CAPACITY - 1, value)
        } else {
            self.slots().update(self.begin_index() - 1, value)
        }
    }

    /// The slots after `value` has been inserted at a logical index `index`
    /// above zero: the elements from `index` on are moved one slot up and
    /// `value` is written into the gap.
    pub open spec fn slots_after_insert(&self, index: usize, value: u64) -> Seq<u64> {
        shifted_right(
            self.slots_with_room_at_end(),
            self.begin_index() + index,
            self.end_index() - self.begin_index() - index,
            1,
        ).update(self.begin_index() + index, value)
    }

    /// The slots after the element at logical index `index` has been removed:
    /// the elements after it are moved one slot down. The slot that held the
    /// last element keeps its value and falls out of the window.
    pub open spec fn slots_after_remove(&self, index: usize) -> Seq<u64> {
        shifted_left(
            self.slots(),
            self.begin_index() + index,
            self.end_index() - self.begin_index() - index - 1,
        )
    }

    /// Appends `value` as the new last element.
    ///
    /// The elements stored before keep their values and logical indices,
    /// whether or not the store had to grow.
    pub fn push_end(&mut self, value: u64)
        requires
            old(self).wf(),
        ensures
            final(self).wf(),
            final(self)@ == old(self)@.push(value),
            forall|i: int| 0 <= i < old(self)@.len() ==> final(self)@[i] == old(self)@[i],
            old(self).extends_at_end(final(self)),
            final(self).slots() == old(self).slots_after_push_end(value),
    {
        let index: usize = self.end;
        if index == self.array.len() {
            self.array.grow();
        }
        self.array[index] = value;
        self.end += 1;
        proof {
            lemma_push_end_elements(*old(self), *self, value);
        }
    }

    /// Prepends `value` as the new first element.
    ///
    /// The elements stored before keep their values and their order, each one
    /// logical index higher, whether or not the store had to grow.
    pub fn push_start(&mut self, value: u64)
        requires
            old(self).wf(),
        ensures
            final(self).wf(),
            final(self)@ == seq![value] + old(self)@,
            forall|i: int| 0 <= i < old(self)@.len() ==> final(self)@[i + 1] == old(self)@[i],
            old(self).extends_at_start(final(self)),
            final(self).slots() == old(self).slots_after_push_start(value),
    {
        if self.begin == 0 {
            self.array.grow();
            self.array.shift_right(0, self.end, INCREMENTAL_CAPACITY);
            proof {
                self.array.lemma_capacity_fits();
            }
            self.begin = INCREMENTAL_CAPACITY;
            self.end += INCREMENTAL_CAPACITY;
        }
        self.begin -= 1;
        self.array[self.begin] = value;
        proof {
            lemma_push_start_elements(*old(self), *self, value);
        }
    }

    /// Removes the element at logical index `index`; the elements after it
    /// move one logical index down.
    ///
    /// An index at or beyond the length is refused and the array stays as it
    /// was. No slot outside the window is written.
    pub fn remove(&mut self, index: usize) -> (r: Result<(), DArrayError>)
        requires
            old(self).wf(),
        ensures
            final(self).wf(),
            index < old(self)@.len() ==> {
                &&& r == Ok::<(), DArrayError>(())
                &&& final(self)@ == old(self)@.remove(index as int)
                &&& old(self).retracts_at_end(final(self))
                &&& final(self).slots() == old(self).slots_after_remove(index)
            },
            index >= old(self)@.len() ==> {
                &&& r == Err::<(), DArrayError>(
                    (DArrayError::IndexOutOfBounds { index, len: old(self)@.len() as usize }),
                )
                &&& *final(self) == *old(self)
            },
    {
        let len: usize = self.end - self.begin;
        if index >= len {
            return Err(DArrayError::IndexOutOfBounds { index, len });
        }
        let slot: usize = self.map_index(index);
        self.array.shift_left(slot, self.end - slot - 1);
        self.end -= 1;
        proof {
            lemma_remove_elements(*old(self), *self, index);
        }
        Ok(())
    }

    /// Inserts `value` so that it becomes the element at logical index
    /// `index`; the elements at `index` and after move one logical index up.
    ///
    /// Index zero prepends, as `push_start` does. An index beyond the length
    /// is refused and the array stays as it was.
    pub fn insert(&mut self, index: usize, value: u64) -> (r: Result<(), DArrayError>)
        requires
            old(self).wf(),
        ensures
            final(self).wf(),
            index <= old(self)@.len() ==> {
                &&& r == Ok::<(), DArrayError>(())
                &&& final(self)@ == old(self)@.insert(index as int, value)
            },
            index == 0 ==> {
                &&& old(self).extends_at_start(final(self))
                &&& final(self).slots() == old(self).slots_after_push_start(value)
            },
            0 < index <= old(self)@.len() ==> {
                &&& old(self).extends_at_end(final(self))
                &&& final(self).slots() == old(self).slots_after_insert(index, value)
            },
            index > old(self)@.len() ==> {
                &&& r == Err::<(), DArrayError>(
                    (DArrayError::InsertOutOfBounds { index, len: old(self)@.len() as usize }),
                )
                &&& *final(self) == *old(self)
            },
    {
        if index == 0 {
            self.push_start(value);
            proof {
                lemma_push_start_elements(*old(self), *self, value);
            }
            return Ok(());
        }
        let len: usize = self.end - self.begin;
        if index > len {
            return Err(DArrayError::InsertOutOfBounds { index, len });
        }
        if self.end == self.array.len() {
            self.array.grow();
        }
        let slot: usize = self.map_index(index);
        self.array.shift_right(slot, self.end - slot, 1);
        self.array[slot] = value;
        self.end = self.end + 1;
        proof {
            lemma_insert_elements(*old(self), *self, index, value);
        }
        Ok(())
    }
}

} // verus!
