//! Iteration over a [`LocalStorageVec`]: by value, consuming the list, and
//! by reference.

use crate::storage::LocalStorageVec;
use vstd::prelude::*;
use vstd::std_specs::iter::IteratorSpec;

verus! {

/// Hands out the elements of a list one by one, front to back, and owns the
/// list while it does so.
pub struct LocalStorageVecIter<T, const N: usize> {
    vec: LocalStorageVec<T, N>,
    counter: usize,
}

impl<T, const N: usize> View for LocalStorageVecIter<T, N> {
    type V = Seq<T>;

    /// The elements that have not been handed out yet, in order.
    closed spec fn view(&self) -> Seq<T> {
        self.vec@.skip(self.counter as int)
    }
}

impl<T, const N: usize> LocalStorageVecIter<T, N> {
    /// The invariant of the iterator: it owns a well-formed list and has
    /// handed out no more elements than the list held.
    pub closed spec fn wf(&self) -> bool {
        &&& self.vec.wf()
        &&& self.counter <= self.vec@.len()
    }
}

impl<T: Default, const N: usize> LocalStorageVecIter<T, N> {
    /// Hands out the first element that is left, or `None` once all have
    /// been handed out.
    pub fn next(&mut self) -> (item: Option<T>)
        requires
            old(self).wf(),
        ensures
            final(self).wf(),
            old(self)@.len() == 0 ==> item is None && final(self)@ == old(self)@,
            old(self)@.len() > 0 ==> item == Some(old(self)@.first()) && final(self)@ == old(
                self,
            )@.drop_first(),
    {
        if self.counter < self.vec.len() {
            let item = self.vec.take_at(self.counter);
            self.counter += 1;
            Some(item)
        } else {
            None
        }
    }
}

impl<T: Default, const N: usize> LocalStorageVec<T, N> {
    /// Moves the element at `index` out and leaves a placeholder in its
    /// place; the other elements stay where they are.
    fn take_at(&mut self, index: usize) -> (element: T)
        requires
            old(self).wf(),
            index < old(self)@.len(),
        ensures
            final(self).wf(),
            element == old(self)@[index as int],
            final(self)@.len() == old(self)@.len(),
            forall|j: int|
                0 <= j < old(self)@.len() && j != index ==> final(self)@[j] == old(self)@[j],
    {
        match self {
            LocalStorageVec::Stack { buf, .. } => core::mem::take(&mut buf[index]),
            LocalStorageVec::Heap(vec) => core::mem::take(&mut vec[index]),
        }
    }
}

impl<T: Default + Clone, const N: usize> LocalStorageVec<T, N> {
    /// Turns the list into an iterator that hands out its elements by value.
    pub fn into_iter(self) -> (iter: LocalStorageVecIter<T, N>)
        requires
            self.wf(),
        ensures
            iter.wf(),
            iter@ == self@,
    {
        LocalStorageVecIter { vec: self, counter: 0 }
    }

    /// An iterator over references to the elements, front to back.
    pub fn iter(&self) -> (iter: core::slice::Iter<'_, T>)
        requires
            self.wf(),
        ensures
            iter.remaining().unref() == self@,
    {
        self.as_ref().iter()
    }
}

} // verus!
