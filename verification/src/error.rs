//! The ways in which a request on a [`DArray`](crate::DArray) can be refused.

use vstd::prelude::*;

verus! {

/// A request named a logical index that the operation does not accept.
///
/// Both variants carry the index that was asked for and the length of the
/// array at the time. A refused request leaves the array as it was.
#[derive(Clone, Copy, Debug, PartialEq, Eq, Structural)]
pub enum DArrayError {
    /// `get` or `remove` was asked for an index at or beyond the length:
    /// no element is stored there.
    IndexOutOfBounds { index: usize, len: usize },
    /// `insert` was asked for an index beyond the length: the new element
    /// would not be adjacent to the stored ones.
    InsertOutOfBounds { index: usize, len: usize },
}

} // verus!
