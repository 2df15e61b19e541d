//! The storage representation of [`LocalStorageVec`], its abstract view, and
//! the operations that grow and shrink it.

use crate::slots::{extract, placeholders, shift_back, spill};
use vstd::prelude::*;

verus! {

/// A growable list that lives in an inline buffer of `N` slots while it is
/// small, and in a heap buffer once it has held more than `N` elements.
///
/// In the `Stack` variant the first `len` slots of `buf` are the elements;
/// the slots behind them hold placeholders that are never read as elements.
pub enum LocalStorageVec<T, const N: usize> {
    Stack { buf: [T; N], len: usize },
    Heap(Vec<T>),
}

impl<T, const N: usize> View for LocalStorageVec<T, N> {
    type V = Seq<T>;

    /// The elements, in order.
    open spec fn view(&self) -> Seq<T> {
        match self {
            LocalStorageVec::Stack { buf, len } => buf@.take(*len as int),
            LocalStorageVec::Heap(vec) => vec@,
        }
    }
}

impl<T, const N: usize> LocalStorageVec<T, N> {
    /// The invariant of the representation: an inline count never exceeds
    /// the inline capacity.
    pub open spec fn wf(&self) -> bool {
        match self {
            LocalStorageVec::Stack { buf, len } => *len <= N,
            LocalStorageVec::Heap(vec) => true,
        }
    }

    /// Whether the elements live in the heap buffer.
    pub open spec fn spilled(&self) -> bool {
        self is Heap
    }

    /// The slots of an inline buffer behind the elements, which hold
    /// placeholders; a list on the heap has none.
    pub open spec fn vacant(&self) -> Seq<T> {
        match self {
            LocalStorageVec::Stack { buf, len } => buf@.skip(*len as int),
            LocalStorageVec::Heap(vec) => Seq::empty(),
        }
    }

    /// The number of elements, as `len` reports it.
    pub open spec fn spec_len(&self) -> usize {
        self@.len() as usize
    }

    /// The number of elements.
    #[verifier::when_used_as_spec(spec_len)]
    pub fn len(&self) -> (count: usize)
        requires
            self.wf(),
        ensures
            count == self@.len(),
            count == self.spec_len(),
    {
        match self {
            LocalStorageVec::Stack { len, .. } => *len,
            LocalStorageVec::Heap(vec) => vec.len(),
        }
    }

    /// Whether the elements live in the heap buffer.
    pub fn is_heap(&self) -> (spilled: bool)
        ensures
            spilled == self.spilled(),
    {
        match self {
            LocalStorageVec::Stack { .. } => false,
            LocalStorageVec::Heap(_) => true,
        }
    }
}

impl<T: Default, const N: usize> LocalStorageVec<T, N> {
    /// Every slot of an inline buffer behind the elements holds a value
    /// that `T::default()` produced. The lists that `new` and `from` build
    /// are so, and every operation keeps a list so.
    pub open spec fn vacant_slots_default(&self) -> bool {
        match self {
            LocalStorageVec::Stack { buf, len } => forall|i: int|
                *len <= i < N ==> call_ensures(T::default, (), #[trigger] buf@[i]),
            LocalStorageVec::Heap(vec) => true,
        }
    }
}

impl<T: Default + Clone, const N: usize> LocalStorageVec<T, N> {
    /// An empty list, in the inline buffer, with a default value in every
    /// slot.
    pub fn new() -> (list: Self)
        ensures
            list.wf(),
            list@ == Seq::<T>::empty(),
            !list.spilled(),
            list.vacant_slots_default(),
    {
        LocalStorageVec::Stack { buf: placeholders(), len: 0 }
    }

    /// Removes the last element and returns it, or returns `None` when the
    /// list is empty. The elements stay in the buffer they are in, and a
    /// slot that an element leaves receives a default value.
    pub fn pop(&mut self) -> (last: Option<T>)
        requires
            old(self).wf(),
        ensures
            final(self).wf(),
            final(self).spilled() == old(self).spilled(),
            old(self)@.len() == 0 ==> last is None && final(self)@ == old(self)@,
            old(self)@.len() > 0 ==> last == Some(old(self)@.last()) && final(self)@ == old(
                self,
            )@.drop_last(),
            old(self).vacant_slots_default() ==> final(self).vacant_slots_default(),
    {
        match self {
            LocalStorageVec::Stack { buf, len } => {
                if *len == 0 {
                    None
                } else {
                    *len -= 1;
                    Some(core::mem::take(&mut buf[*len]))
                }
            },
            LocalStorageVec::Heap(vec) => vec.pop(),
        }
    }

    /// Appends `value`. A full inline buffer is moved to the heap first, and
    /// that is the only way a list ever leaves the inline buffer.
    pub fn push(&mut self, value: T)
        requires
            old(self).wf(),
            old(self)@.len() < usize::MAX,
        ensures
            final(self).wf(),
            final(self)@ == old(self)@.push(value),
            final(self).spilled() <==> old(self).spilled() || old(self)@.len() == N,
            old(self).vacant_slots_default() ==> final(self).vacant_slots_default(),
    {
        match self {
            LocalStorageVec::Stack { buf, len } => {
                if *len < N {
                    buf[*len] = value;
                    *len += 1;
                } else {
                    let mut heap = spill(buf);
                    heap.push(value);
                    *self = LocalStorageVec::Heap(heap);
                }
            },
            LocalStorageVec::Heap(vec) => vec.push(value),
        }
    }

    /// Inserts `value` at `index`, moving the elements from `index` on one
    /// place towards the back. A full inline buffer is moved to the heap
    /// first.
    pub fn insert(&mut self, index: usize, value: T)
        requires
            old(self).wf(),
            index <= old(self)@.len(),
            old(self)@.len() < usize::MAX,
        ensures
            final(self).wf(),
            final(self)@ == old(self)@.insert(index as int, value),
            final(self).spilled() <==> old(self).spilled() || old(self)@.len() == N,
            old(self).vacant_slots_default() ==> final(self).vacant_slots_default(),
    {
        match self {
            LocalStorageVec::Stack { buf, len } => {
                if *len < N {
                    shift_back(buf, index, *len);
                    buf[index] = value;
                    *len += 1;
                } else {
                    let mut heap = spill(buf);
                    heap.insert(index, value);
                    *self = LocalStorageVec::Heap(heap);
                }
            },
            LocalStorageVec::Heap(vec) => vec.insert(index, value),
        }
    }

    /// Removes the element at `index` and returns it, moving the elements
    /// behind it one place towards the front. The elements stay in the
    /// buffer they are in, and the slot that the last of them leaves
    /// receives a default value.
    pub fn remove(&mut self, index: usize) -> (element: T)
        requires
            old(self).wf(),
            index < old(self)@.len(),
        ensures
            final(self).wf(),
            element == old(self)@[index as int],
            final(self)@ == old(self)@.remove(index as int),
            final(self).spilled() == old(self).spilled(),
            old(self).vacant_slots_default() ==> final(self).vacant_slots_default(),
    {
        match self {
            LocalStorageVec::Stack { buf, len } => {
                let element = extract(buf, index, *len);
                *len -= 1;
                element
            },
            LocalStorageVec::Heap(vec) => vec.remove(index),
        }
    }

    /// Removes every element. The list stays in the buffer it is in, and
    /// each slot that an element leaves receives a default value.
    pub fn clear(&mut self)
        requires
            old(self).wf(),
        ensures
            final(self).wf(),
            final(self)@ == Seq::<T>::empty(),
            final(self).spilled() == old(self).spilled(),
            old(self).vacant_slots_default() ==> final(self).vacant_slots_default(),
    {
        match self {
            LocalStorageVec::Stack { buf, len } => {
                let ghost count = *len;
                let ghost kept = old(self).vacant_slots_default();
                while *len > 0
                    invariant
                        *len <= count <= N,
                        forall|i: int|
                            *len <= i < count ==> call_ensures(T::default, (), #[trigger] buf@[i]),
                        kept ==> forall|i: int|
                            count <= i < N ==> call_ensures(T::default, (), #[trigger] buf@[i]),
                    decreases *len,
                {
                    *len -= 1;
                    let _ = core::mem::take(&mut buf[*len]);
                }
            },
            LocalStorageVec::Heap(vec) => vec.clear(),
        }
    }
}

} // verus!
