//! A growable, double-ended array of `u64` values.
//!
//! [`DSlice`] is the backing store: a contiguous run of slots that grows at its
//! high end and can move runs of slots left or right. [`DArray`] lays a window
//! `[begin, end)` over such a store and offers indexed reads, pushes at both
//! ends, and insertion and removal at any logical index.

pub mod darray;
pub mod dslice;
pub mod error;
pub mod laws;

pub use darray::DArray;
pub use dslice::{DSlice, INCREMENTAL_CAPACITY, INITIAL_CAPACITY};
pub use error::DArrayError;
