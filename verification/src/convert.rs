//! Building a [`LocalStorageVec`] from an array or from a `Vec`.

use crate::slots::placeholders;
use crate::storage::LocalStorageVec;
use vstd::prelude::*;

verus! {

/// `Vec::from` on an array allocates a buffer and moves the array's items
/// into it, in order.
pub assume_specification<T, const N: usize>[ <Vec<T> as From<[T; N]>>::from ](
    array: [T; N],
) -> (vec: Vec<T>)
    ensures
        vec@ == array@,
;

impl<T: Default + Clone, const N: usize, const M: usize> vstd::std_specs::convert::FromSpecImpl<[T; N]> for LocalStorageVec<T, M> {
    /// The list is no function of the array alone: what `T::clone` and
    /// `T::default` hand back goes into it. `from` states its own contract.
    open spec fn obeys_from_spec() -> bool {
        false
    }

    open spec fn from_spec(array: [T; N]) -> Self {
        arbitrary()
    }
}

impl<T: Default + Clone, const N: usize, const M: usize> From<[T; N]> for LocalStorageVec<T, M> {
    /// Builds a list from `array`: in the inline buffer when the array fits
    /// into it, holding a clone of each item, and otherwise on the heap,
    /// holding the items themselves.
    fn from(array: [T; N]) -> (list: Self)
        ensures
            list.wf(),
            list@.len() == N,
            list.spilled() <==> N > M,
            list.spilled() ==> list@ == array@,
            forall|i: int| 0 <= i < N ==> cloned(array@[i], #[trigger] list@[i]),
            list.vacant_slots_default(),
    {
        if N <= M {
            let mut buf: [T; M] = placeholders();
            let mut i: usize = 0;
            while i < N
                invariant
                    i <= N <= M,
                    forall|j: int| 0 <= j < i ==> cloned(array@[j], #[trigger] buf@[j]),
                    forall|j: int| i <= j < M ==> call_ensures(T::default, (), #[trigger] buf@[j]),
                decreases N - i,
            {
                buf[i] = array[i].clone();
                i += 1;
            }
            LocalStorageVec::Stack { buf, len: N }
        } else {
            LocalStorageVec::Heap(Vec::from(array))
        }
    }
}

impl<T: Default + Clone, const N: usize> vstd::std_specs::convert::FromSpecImpl<Vec<T>> for LocalStorageVec<T, N> {
    /// The list is no function of the vector alone: what `T::default` hands
    /// back goes into it. `from` states its own contract.
    open spec fn obeys_from_spec() -> bool {
        false
    }

    open spec fn from_spec(vec: Vec<T>) -> Self {
        arbitrary()
    }
}

impl<T: Default + Clone, const N: usize> From<Vec<T>> for LocalStorageVec<T, N> {
    /// Builds a list that holds the items of `vec`: in the inline buffer
    /// when they fit into it, and otherwise in `vec` itself.
    fn from(vec: Vec<T>) -> (list: Self)
        ensures
            list.wf(),
            list@ == vec@,
            list.spilled() <==> vec@.len() > N,
            list.spilled() ==> list == LocalStorageVec::<T, N>::Heap(vec),
            list.vacant_slots_default(),
    {
        let len = vec.len();
        if len <= N {
            let mut vec = vec;
            let ghost items = vec@;
            let mut buf: [T; N] = placeholders();
            let mut i: usize = 0;
            while i < len
                invariant
                    i <= len <= N,
                    items.len() == len,
                    vec@.len() == len,
                    forall|j: int| 0 <= j < i ==> buf@[j] == items[j],
                    forall|j: int| i <= j < len ==> vec@[j] == items[j],
                    forall|j: int| i <= j < N ==> call_ensures(T::default, (), #[trigger] buf@[j]),
                decreases len - i,
            {
                buf[i] = core::mem::take(&mut vec[i]);
                i += 1;
            }
            LocalStorageVec::Stack { buf, len }
        } else {
            LocalStorageVec::Heap(vec)
        }
    }
}

} // verus!
