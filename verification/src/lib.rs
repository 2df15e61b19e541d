//! Verified building blocks on sequences.
//!
//! The main one is [`LocalStorageVec`], a growable list that keeps its
//! elements in an inline buffer of fixed capacity and moves them to a heap
//! buffer once that capacity is exceeded. Beside it stand a merge sort
//! ([`sort`]) and a queue of bytes in a circular buffer ([`ring_buffer`]).

pub mod access;
pub mod convert;
pub mod index;
pub mod iter;
pub mod laws;
pub mod ring_buffer;
mod slots;
pub mod sort;
pub mod storage;

pub use storage::LocalStorageVec;
