//! What holds across several operations on a [`DArray`](crate::DArray).
//!
//! The operations are described by what they do to the sequence of stored
//! elements: `push_end` appends with `Seq::push`, `push_start` puts one
//! element in front, `insert` and `remove` are `Seq::insert` and
//! `Seq::remove`. The statements below are about those sequences, so they
//! hold of every array, whatever was done to it before and however often its
//! store has grown.

use crate::darray::DArray;
use vstd::prelude::*;

verus! {

/// The elements after each of `values` has been appended in turn, first value
/// first, to an array that holds `elements`.
pub open spec fn push_end_all(elements: Seq<u64>, values: Seq<u64>) -> Seq<u64>
    decreases values.len(),
{
    if values.len() == 0 {
        elements
    } else {
        push_end_all(elements, values.drop_last()).push(values.last())
    }
}

/// The elements after each of `values` has been prepended in turn, first
/// value first, to an array that holds `elements`.
pub open spec fn push_start_all(elements: Seq<u64>, values: Seq<u64>) -> Seq<u64>
    decreases values.len(),
{
    if values.len() == 0 {
        elements
    } else {
        seq![values.last()] + push_start_all(elements, values.drop_last())
    }
}

/// In a well-formed array the window lies inside the store, and the length
/// is the distance between its two cursors.
pub proof fn lemma_window_bounds(array: DArray)
    requires
        array.wf(),
    ensures
        0 <= array.begin_index() <= array.end_index() <= array.capacity(),
        array.end_index() - array.begin_index() >= 0,
        array@.len() == array.end_index() - array.begin_index(),
        forall|i: int|
            0 <= i < array@.len() ==> array@[i] == array.slots()[array.begin_index() + i],
{
}

/// Taking a slot at the high end and writing `value` there appends `value`
/// to the elements, whether or not the store has to grow for it.
pub proof fn lemma_push_end_elements(before: DArray, after: DArray, value: u64)
    requires
        before.wf(),
        before.extends_at_end(&after),
        after.slots() == before.slots_after_push_end(value),
    ensures
        after.wf(),
        after@ == before@.push(value),
{
    assert(after@ =~= before@.push(value));
}

/// Taking a slot at the low end and writing `value` there puts `value` in
/// front of the elements, whether or not the store has to grow, and the
/// window to move, for it.
pub proof fn lemma_push_start_elements(before: DArray, after: DArray, value: u64)
    requires
        before.wf(),
        before.extends_at_start(&after),
        after.slots() == before.slots_after_push_start(value),
    ensures
        after.wf(),
        after@ == seq![value] + before@,
        after@ == before@.insert(0, value),
{
    assert(after@ =~= seq![value] + before@);
    assert(after@ =~= before@.insert(0, value));
}

/// Moving the elements from logical index `index` on one slot up and writing
/// `value` into the gap inserts `value` at `index`, whether or not the store
/// has to grow for it.
pub proof fn lemma_insert_elements(before: DArray, after: DArray, index: usize, value: u64)
    requires
        before.wf(),
        0 < index <= before@.len(),
        before.extends_at_end(&after),
        after.slots() == before.slots_after_insert(index, value),
    ensures
        after.wf(),
        after@ == before@.insert(index as int, value),
{
    assert(after@ =~= before@.insert(index as int, value));
}

/// Moving the elements after logical index `index` one slot down and giving
/// up the last slot of the window removes the element at `index`.
pub proof fn lemma_remove_elements(before: DArray, after: DArray, index: usize)
    requires
        before.wf(),
        index < before@.len(),
        before.retracts_at_end(&after),
        after.slots() == before.slots_after_remove(index),
    ensures
        after.wf(),
        after@ == before@.remove(index as int),
{
    assert(after@ =~= before@.remove(index as int));
}

/// Appending values one after another is appending them all at once.
pub proof fn lemma_push_end_all(elements: Seq<u64>, values: Seq<u64>)
    ensures
        push_end_all(elements, values) == elements + values,
    decreases values.len(),
{
    if values.len() > 0 {
        lemma_push_end_all(elements, values.drop_last());
    }
    assert(push_end_all(elements, values) =~= elements + values);
}

/// Prepending values one after another puts them in front in reverse order.
pub proof fn lemma_push_start_all(elements: Seq<u64>, values: Seq<u64>)
    ensures
        push_start_all(elements, values) == values.reverse() + elements,
    decreases values.len(),
{
    if values.len() > 0 {
        lemma_push_start_all(elements, values.drop_last());
    }
    assert(push_start_all(elements, values) =~= values.reverse() + elements);
}

/// Values appended to an empty array are read back in the order in which
/// they were pushed.
pub proof fn lemma_push_end_round_trip(values: Seq<u64>)
    ensures
        push_end_all(Seq::empty(), values) == values,
        forall|i: int|
            0 <= i < values.len() ==> push_end_all(Seq::empty(), values)[i] == values[i],
{
    lemma_push_end_all(Seq::empty(), values);
    assert(Seq::<u64>::empty() + values =~= values);
}

/// Values prepended to an empty array are read back in the reverse of the
/// order in which they were pushed.
pub proof fn lemma_push_start_round_trip(values: Seq<u64>)
    ensures
        push_start_all(Seq::empty(), values) == values.reverse(),
        push_start_all(Seq::empty(), values).len() == values.len(),
        forall|i: int|
            0 <= i < values.len() ==> push_start_all(Seq::empty(), values)[i] == values[
                values.len() - 1 - i],
{
    lemma_push_start_all(Seq::empty(), values);
    assert(values.reverse() + Seq::<u64>::empty() =~= values.reverse());
}

/// Removing at the index at which a value was just inserted gives back the
/// elements as they were before the insertion.
pub proof fn lemma_insert_then_remove(elements: Seq<u64>, index: int, value: u64)
    requires
        0 <= index <= elements.len(),
    ensures
        elements.insert(index, value).remove(index) == elements,
{
    assert(elements.insert(index, value).remove(index) =~= elements);
}

/// However many values are appended, and however often the store grows for
/// them, each element stored before keeps its value and its logical index.
pub proof fn lemma_push_end_keeps_elements(elements: Seq<u64>, values: Seq<u64>)
    ensures
        push_end_all(elements, values).len() == elements.len() + values.len(),
        forall|i: int|
            0 <= i < elements.len() ==> push_end_all(elements, values)[i] == elements[i],
{
    lemma_push_end_all(elements, values);
}

/// However many values are prepended, and however often the store grows for
/// them, each element stored before keeps its value and its place among the
/// others: its logical index rises by the number of values prepended.
pub proof fn lemma_push_start_keeps_elements(elements: Seq<u64>, values: Seq<u64>)
    ensures
        push_start_all(elements, values).len() == elements.len() + values.len(),
        forall|i: int|
            0 <= i < elements.len() ==> push_start_all(elements, values)[values.len() + i]
                == elements[i],
{
    lemma_push_start_all(elements, values);
}

} // verus!
