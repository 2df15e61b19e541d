//! Borrowed views of the elements of a [`LocalStorageVec`].

use crate::storage::LocalStorageVec;
use vstd::prelude::*;

verus! {

impl<T, const N: usize> LocalStorageVec<T, N> {
    /// The elements as one contiguous slice.
    pub fn as_ref(&self) -> (slice: &[T])
        requires
            self.wf(),
        ensures
            slice@ == self@,
            slice@.len() == self.len(),
    {
        match self {
            LocalStorageVec::Stack { buf, len } => &buf[0..*len],
            LocalStorageVec::Heap(vec) => {
                assert(vec@.len() == vec.len());
                vec.as_slice()
            },
        }
    }

    /// The elements as one contiguous slice through which they can be
    /// overwritten in place.
    pub fn as_mut(&mut self) -> (slice: &mut [T])
        requires
            old(self).wf(),
        ensures
            slice@ == old(self)@,
            final(self)@ == final(slice)@,
            final(self).wf(),
            final(self).spilled() == old(self).spilled(),
            final(self).vacant() == old(self).vacant(),
    {
        match self {
            LocalStorageVec::Stack { buf, len } => {
                let (live, _) = buf.split_at_mut(*len);
                live
            },
            LocalStorageVec::Heap(vec) => vec.as_mut_slice(),
        }
    }
}

} // verus!
