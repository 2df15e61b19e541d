//! Indexing into a [`LocalStorageVec`] by position or by range.

use crate::storage::LocalStorageVec;
use core::ops::Index;
use core::slice::SliceIndex;
use vstd::prelude::*;
use vstd::slice::SliceIndexSpec;

verus! {

impl<T, I: SliceIndex<[T]>, const N: usize> vstd::std_specs::core::IndexSpecImpl<I> for LocalStorageVec<T, N> {
    /// Indexing asks for a well-formed list and an index that is in bounds
    /// of the slice of its elements.
    open spec fn index_req(&self, index: &I) -> bool {
        &&& self.wf()
        &&& forall|slice: &[T]| #[trigger] slice@ == self@ ==> index.index_req(slice)
    }
}

impl<T, I: SliceIndex<[T]>, const N: usize> Index<I> for LocalStorageVec<T, N> {
    type Output = I::Output;

    /// What indexing the slice of the elements gives: the element at a
    /// position, or the sub-slice of a range.
    fn index(&self, index: I) -> (output: &I::Output)
        ensures
            exists|slice: &[T]| #[trigger]
                slice@ == self@ && call_ensures(
                    <I as SliceIndex<[T]>>::index,
                    (index, slice),
                    output,
                ),
    {
        let slice = self.as_ref();
        &slice[index]
    }
}

impl<T, const N: usize> core::ops::Deref for LocalStorageVec<T, N> {
    type Target = [T];

    /// The elements as one contiguous slice. An inline count beyond the
    /// inline capacity is read as the capacity.
    fn deref(&self) -> (slice: &[T])
        ensures
            self.wf() ==> slice@ == self@,
    {
        match self {
            LocalStorageVec::Stack { buf, len } => {
                let live: usize = if *len <= N {
                    *len
                } else {
                    N
                };
                &buf[0..live]
            },
            LocalStorageVec::Heap(vec) => vec.as_slice(),
        }
    }
}

impl<T, const N: usize> core::ops::DerefMut for LocalStorageVec<T, N> {
    /// The elements as one contiguous slice through which they can be
    /// overwritten in place. An inline count beyond the inline capacity is
    /// read as the capacity.
    fn deref_mut(&mut self) -> (slice: &mut [T])
        ensures
            final(self).spilled() == old(self).spilled(),
            old(self).wf() ==> {
                &&& slice@ == old(self)@
                &&& final(self)@ == final(slice)@
                &&& final(self).wf()
                &&& final(self).vacant() == old(self).vacant()
            },
    {
        match self {
            LocalStorageVec::Stack { buf, len } => {
                let live: usize = if *len <= N {
                    *len
                } else {
                    N
                };
                let (front, _) = buf.split_at_mut(live);
                front
            },
            LocalStorageVec::Heap(vec) => vec.as_mut_slice(),
        }
    }
}

} // verus!
