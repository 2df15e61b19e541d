//! Moves of elements between the slots of an inline buffer.

use vstd::prelude::*;

verus! {

/// `core::mem::take` hands back the value that was behind `dest` and leaves
/// a value produced by `T::default()` in its place.
pub assume_specification<T: Default>[ core::mem::take::<T> ](dest: &mut T) -> (value: T)
    ensures
        value == *old(dest),
        call_ensures(T::default, (), *final(dest)),
;

/// One placeholder value for an unoccupied slot.
pub(crate) fn placeholder<T: Default>() -> (value: T)
    ensures
        call_ensures(T::default, (), value),
{
    T::default()
}

/// `core::array::from_fn` builds an array by calling its closure once per
/// slot; here every slot receives a placeholder.
#[verifier::external_body]
pub(crate) fn placeholders<T: Default, const N: usize>() -> (buf: [T; N])
    ensures
        forall|i: int| 0 <= i < N ==> call_ensures(T::default, (), #[trigger] buf@[i]),
{
    core::array::from_fn(|_| placeholder::<T>())
}

/// Moves every element of `buf` into a fresh heap buffer with room for one
/// more, leaving placeholders behind.
pub(crate) fn spill<T: Default, const N: usize>(buf: &mut [T; N]) -> (heap: Vec<T>)
    requires
        N < usize::MAX,
    ensures
        heap@ == old(buf)@,
{
    let ghost prior = buf@;
    let mut heap = Vec::with_capacity(N + 1);
    let mut i: usize = 0;
    while i < N
        invariant
            i <= N,
            prior.len() == N,
            heap@ == prior.take(i as int),
            forall|j: int| i <= j < N ==> buf@[j] == prior[j],
        decreases N - i,
    {
        heap.push(core::mem::take(&mut buf[i]));
        i += 1;
    }
    assert(prior.take(N as int) == prior);
    heap
}

/// Opens a gap at `index` by moving the elements in `index..len` one slot
/// towards the back. The slots behind `len` stay as they are.
pub(crate) fn shift_back<T: Default, const N: usize>(buf: &mut [T; N], index: usize, len: usize)
    requires
        index <= len < N,
    ensures
        forall|j: int| 0 <= j < index ==> final(buf)@[j] == old(buf)@[j],
        forall|j: int| index < j <= len ==> final(buf)@[j] == old(buf)@[j - 1],
        forall|j: int| len < j < N ==> final(buf)@[j] == old(buf)@[j],
{
    let ghost prior = buf@;
    let mut i: usize = len;
    while i > index
        invariant
            index <= i <= len < N,
            prior.len() == N,
            forall|j: int| 0 <= j < i ==> buf@[j] == prior[j],
            forall|j: int| i < j <= len ==> buf@[j] == prior[j - 1],
            forall|j: int| len < j < N ==> buf@[j] == prior[j],
        decreases i,
    {
        let moved = core::mem::take(&mut buf[i - 1]);
        buf[i] = moved;
        i -= 1;
    }
}

/// Moves the element at `index` out and closes the gap by moving the
/// elements in `index + 1..len` one slot towards the front, which leaves a
/// placeholder in the slot at `len - 1`. The slots from `len` on stay as
/// they are.
pub(crate) fn extract<T: Default, const N: usize>(
    buf: &mut [T; N],
    index: usize,
    len: usize,
) -> (element: T)
    requires
        index < len <= N,
    ensures
        element == old(buf)@[index as int],
        forall|j: int| 0 <= j < index ==> final(buf)@[j] == old(buf)@[j],
        forall|j: int| index <= j < len - 1 ==> final(buf)@[j] == old(buf)@[j + 1],
        call_ensures(T::default, (), final(buf)@[len - 1]),
        forall|j: int| len <= j < N ==> final(buf)@[j] == old(buf)@[j],
{
    let ghost prior = buf@;
    let element = core::mem::take(&mut buf[index]);
    let mut i: usize = index;
    while i + 1 < len
        invariant
            index <= i < len <= N,
            prior.len() == N,
            forall|j: int| 0 <= j < index ==> buf@[j] == prior[j],
            forall|j: int| index <= j < i ==> buf@[j] == prior[j + 1],
            call_ensures(T::default, (), buf@[i as int]),
            forall|j: int| i < j < N ==> buf@[j] == prior[j],
        decreases len - i,
    {
        let moved = core::mem::take(&mut buf[i + 1]);
        buf[i] = moved;
        i += 1;
    }
    element
}

} // verus!
