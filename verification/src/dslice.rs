//! The backing store: a contiguous block of `u64` slots.

use vstd::prelude::*;

verus! {

/// Number of slots that one growth step adds to a store.
pub const INCREMENTAL_CAPACITY: usize = 1024;

/// Number of slots of a freshly created store: two growth steps, so that a
/// window placed in the middle has one step of slack on either side.
pub const INITIAL_CAPACITY: usize = INCREMENTAL_CAPACITY * 2;

/// A contiguous block of `u64` slots that never shrinks.
///
/// The store attaches no meaning to what its slots hold. Its view is the
/// sequence of all slots, indexed by physical position.
#[derive(Debug)]
pub struct DSlice(Vec<u64>);

impl View for DSlice {
    type V = Seq<u64>;

    closed spec fn view(&self) -> Seq<u64> {
        self.0@
    }
}

/// A run of `n` zero slots.
pub open spec fn zeros(n: nat) -> Seq<u64> {
    Seq::new(n, |i: int| 0u64)
}

/// The slots of `s` followed by one growth step of zero slots.
pub open spec fn grown(s: Seq<u64>) -> Seq<u64> {
    s + zeros(INCREMENTAL_CAPACITY as nat)
}

/// The slots of `s` after the run of `count` slots that starts at `offset` has
/// been copied `amount` slots towards the high end.
///
/// Slots outside the destination run `[offset + amount, offset + amount + count)`
/// keep their values.
pub open spec fn shifted_right(s: Seq<u64>, offset: int, count: int, amount: int) -> Seq<u64> {
    Seq::new(
        s.len(),
        |i: int|
            if offset + amount <= i < offset + amount + count {
                s[i - amount]
            } else {
                s[i]
            },
    )
}

/// The slots of `s` after the run of `count` slots that starts at `offset + 1`
/// has been copied one slot towards the low end.
///
/// Slots outside the destination run `[offset, offset + count)` keep their
/// values.
pub open spec fn shifted_left(s: Seq<u64>, offset: int, count: int) -> Seq<u64> {
    Seq::new(
        s.len(),
        |i: int|
            if offset <= i < offset + count {
                s[i + 1]
            } else {
                s[i]
            },
    )
}

impl DSlice {
    /// The capacity is a multiple of the growth step and never below the
    /// initial capacity.
    pub open spec fn wf(&self) -> bool {
        &&& self@.len() >= INITIAL_CAPACITY
        &&& self@.len() % (INCREMENTAL_CAPACITY as nat) == 0
    }

    /// The capacity fits in a `usize`.
    pub proof fn lemma_capacity_fits(&self)
        ensures
            self@.len() <= usize::MAX,
    {
        assert(self.0.len() == self.0@.len());
    }

    /// Creates a store of `INITIAL_CAPACITY` slots, each holding zero.
    pub fn new() -> (s: Self)
        ensures
            s.wf(),
            s@ == zeros(INITIAL_CAPACITY as nat),
    {
        let v: Vec<u64> = vec![0u64; INITIAL_CAPACITY];
        assert(v@ =~= zeros(INITIAL_CAPACITY as nat));
        DSlice(v)
    }

    /// Extends the store by `INCREMENTAL_CAPACITY` zero slots at its high end.
    ///
    /// Every slot that existed before keeps its value and its physical
    /// position.
    pub fn grow(&mut self)
        ensures
            final(self)@ == grown(old(self)@),
            final(self)@.len() == old(self)@.len() + INCREMENTAL_CAPACITY,
            forall|i: int| 0 <= i < old(self)@.len() ==> final(self)@[i] == old(self)@[i],
            old(self).wf() ==> final(self).wf(),
    {
        self.0.reserve(INCREMENTAL_CAPACITY);
        let mut added: usize = 0;
        while added < INCREMENTAL_CAPACITY
            invariant
                added <= INCREMENTAL_CAPACITY,
                self.0@ == old(self).0@ + zeros(added as nat),
            decreases INCREMENTAL_CAPACITY - added,
        {
            self.0.push(0);
            added += 1;
        }
    }

    /// Moves the `count` slots that start at `offset` so that they start at
    /// `offset + shift_amount`, keeping their order.
    ///
    /// Source and destination may overlap: the run is copied from its highest
    /// slot downwards, so no source slot is overwritten before it is read.
    pub fn shift_right(&mut self, offset: usize, count: usize, shift_amount: usize)
        requires
            offset + count + shift_amount <= old(self)@.len(),
        ensures
            final(self)@ == shifted_right(
                old(self)@,
                offset as int,
                count as int,
                shift_amount as int,
            ),
            final(self)@.len() == old(self)@.len(),
    {
        let mut left: usize = count;
        while left > 0
            invariant
                left <= count,
                offset + count + shift_amount <= self.0.len(),
                self.0@.len() == old(self).0@.len(),
                forall|i: int|
                    0 <= i < self.0@.len() ==> self.0@[i] == if offset + shift_amount + left <= i
                        < offset + shift_amount + count {
                        old(self).0@[i - shift_amount]
                    } else {
                        old(self).0@[i]
                    },
            decreases left,
        {
            left -= 1;
            let value: u64 = self.0[offset + left];
            self.0[offset + left + shift_amount] = value;
        }
    }

    /// Moves the `count` slots that start at `offset + 1` so that they start
    /// at `offset`, keeping their order. This closes a gap of one slot at
    /// `offset`.
    ///
    /// The run is copied from its lowest slot upwards, so no source slot is
    /// overwritten before it is read.
    pub fn shift_left(&mut self, offset: usize, count: usize)
        requires
            offset + count + 1 <= old(self)@.len(),
        ensures
            final(self)@ == shifted_left(old(self)@, offset as int, count as int),
            final(self)@.len() == old(self)@.len(),
    {
        let mut done: usize = 0;
        while done < count
            invariant
                done <= count,
                offset + count + 1 <= self.0.len(),
                self.0@.len() == old(self).0@.len(),
                forall|i: int|
                    0 <= i < self.0@.len() ==> self.0@[i] == if offset <= i < offset + done {
                        old(self).0@[i + 1]
                    } else {
                        old(self).0@[i]
                    },
            decreases count - done,
        {
            let value: u64 = self.0[offset + done + 1];
            self.0[offset + done] = value;
            done += 1;
        }
    }
}

impl core::ops::Deref for DSlice {
    type Target = [u64];

    /// The slots as a slice, for reading a slot and for the capacity.
    fn deref(&self) -> (slots: &[u64])
        ensures
            slots@ == self@,
    {
        self.0.as_slice()
    }
}

impl core::ops::DerefMut for DSlice {
    /// The slots as a mutable slice, for writing a slot.
    fn deref_mut(&mut self) -> (slots: &mut [u64])
        ensures
            slots@ == old(self)@,
            final(slots)@ == final(self)@,
    {
        self.0.as_mut_slice()
    }
}

} // verus!
