//! Laws that relate several operations of a [`LocalStorageVec`].
//!
//! A run of operations is given by the lists between them: `states[i]` is
//! the list after `i` operations, and what each law assumes of two
//! neighbouring lists is what the operation ensures of the list before it
//! and the list after it.

use crate::storage::LocalStorageVec;
use vstd::prelude::*;

verus! {

/// After `k` pushes a list holds what it held before, followed by the
/// pushed values in order, and it is on the heap if and only if it was
/// there before or has by now held more than `N` elements. So an empty
/// inline list stays inline through `N` pushes and moves at the push after
/// that.
///
/// `values[i]` is the value of push number `i`.
pub proof fn lemma_pushes_spill_past_capacity<T, const N: usize>(
    states: Seq<LocalStorageVec<T, N>>,
    values: Seq<T>,
    k: int,
)
    requires
        states.len() == values.len() + 1,
        states[0].wf(),
        forall|i: int|
            0 <= i < values.len() ==> {
                &&& states[i + 1]@ == states[i]@.push(#[trigger] values[i])
                &&& states[i + 1].spilled() <==> states[i].spilled() || states[i]@.len() == N
            },
        0 <= k <= values.len(),
    ensures
        states[k]@ == states[0]@ + values.take(k),
        states[k].spilled() <==> states[0].spilled() || states[0]@.len() + k > N,
        states[0]@.len() == 0 && !states[0].spilled() ==> (states[k].spilled() <==> k > N),
    decreases k,
{
    if k > 0 {
        lemma_pushes_spill_past_capacity(states, values, k - 1);
        let value = values[k - 1];
        assert((states[0]@ + values.take(k - 1)).push(value) == states[0]@ + values.take(k));
    } else {
        assert(states[0]@ + values.take(0) == states[0]@);
    }
}

/// After `k` pops a list is in the buffer it was in before, and it holds
/// what it held before without its last `k` elements, or nothing if it held
/// no more than `k`. So popping a list empty never moves it from the heap
/// back to the inline buffer.
///
/// `results[i]` is what pop number `i` returned.
pub proof fn lemma_pops_keep_buffer<T, const N: usize>(
    states: Seq<LocalStorageVec<T, N>>,
    results: Seq<Option<T>>,
    k: int,
)
    requires
        states.len() == results.len() + 1,
        forall|i: int|
            #![trigger results[i]]
            0 <= i < results.len() ==> {
                &&& states[i + 1].spilled() == states[i].spilled()
                &&& states[i]@.len() == 0 ==> results[i] is None && states[i + 1]@ == states[i]@
                &&& states[i]@.len() > 0 ==> results[i] == Some(states[i]@.last()) && states[i
                    + 1]@ == states[i]@.drop_last()
            },
        0 <= k <= results.len(),
    ensures
        states[k].spilled() == states[0].spilled(),
        k <= states[0]@.len() ==> states[k]@ == states[0]@.take(states[0]@.len() - k),
        k >= states[0]@.len() ==> states[k]@ == Seq::<T>::empty(),
    decreases k,
{
    let held = states[0]@;
    if k > 0 {
        lemma_pops_keep_buffer(states, results, k - 1);
        let result = results[k - 1];
        if k <= held.len() {
            assert(held.take(held.len() - (k - 1)).drop_last() == held.take(held.len() - k));
        }
    } else {
        assert(held.take(held.len() - 0) == held);
    }
}

/// Pushes followed by as many pops give back the pushed values in reverse
/// order and leave the list holding what it held before: pop number `k`
/// returns the value of the push that is `k` before the last one, and after
/// `k` pops the last `k` pushes are undone.
///
/// `pushed[i]` is the list after `i` pushes, `values[i]` the value of push
/// number `i`, `popped[i]` the list after all the pushes and `i` pops, and
/// `results[i]` what pop number `i` returned.
pub proof fn lemma_pops_undo_pushes<T, const N: usize>(
    pushed: Seq<LocalStorageVec<T, N>>,
    values: Seq<T>,
    popped: Seq<LocalStorageVec<T, N>>,
    results: Seq<Option<T>>,
    k: int,
)
    requires
        pushed.len() == values.len() + 1,
        popped.len() == values.len() + 1,
        results.len() == values.len(),
        popped[0] == pushed.last(),
        forall|i: int|
            0 <= i < values.len() ==> pushed[i + 1]@ == pushed[i]@.push(#[trigger] values[i]),
        forall|i: int|
            #![trigger results[i]]
            0 <= i < values.len() ==> {
                &&& popped[i]@.len() == 0 ==> results[i] is None && popped[i + 1]@ == popped[i]@
                &&& popped[i]@.len() > 0 ==> results[i] == Some(popped[i]@.last()) && popped[i
                    + 1]@ == popped[i]@.drop_last()
            },
        0 <= k <= values.len(),
    ensures
        popped[k]@ == pushed[0]@ + values.take(values.len() - k),
        k < values.len() ==> results[k] == Some(values[values.len() - 1 - k]),
        k == values.len() ==> popped[k]@ == pushed[0]@,
    decreases k,
{
    let n = values.len() as int;
    let held = pushed[0]@;
    if k > 0 {
        lemma_pops_undo_pushes(pushed, values, popped, results, k - 1);
        let result = results[k - 1];
        assert((held + values.take(n - (k - 1))).drop_last() == held + values.take(n - k));
    } else {
        lemma_pushes_append(pushed, values, n);
        assert(pushed.last() == pushed[n]);
    }
    if k == n {
        assert(held + values.take(0) == held);
    }
}

/// After `k` pushes a list holds what it held before, followed by the
/// pushed values in order.
proof fn lemma_pushes_append<T, const N: usize>(
    pushed: Seq<LocalStorageVec<T, N>>,
    values: Seq<T>,
    k: int,
)
    requires
        pushed.len() == values.len() + 1,
        forall|i: int|
            0 <= i < values.len() ==> pushed[i + 1]@ == pushed[i]@.push(#[trigger] values[i]),
        0 <= k <= values.len(),
    ensures
        pushed[k]@ == pushed[0]@ + values.take(k),
    decreases k,
{
    if k > 0 {
        lemma_pushes_append(pushed, values, k - 1);
        let value = values[k - 1];
        assert((pushed[0]@ + values.take(k - 1)).push(value) == pushed[0]@ + values.take(k));
    } else {
        assert(pushed[0]@ + values.take(0) == pushed[0]@);
    }
}

/// Removing at the index of an insertion gives back the inserted value and
/// leaves the list holding what it held before the insertion.
///
/// `before` is the list before the insertion, `between` the list after it,
/// and `after` the list after the removal, which returned `removed`.
pub proof fn lemma_remove_undoes_insert<T, const N: usize>(
    before: LocalStorageVec<T, N>,
    index: usize,
    value: T,
    between: LocalStorageVec<T, N>,
    removed: T,
    after: LocalStorageVec<T, N>,
)
    requires
        index <= before@.len(),
        between@ == before@.insert(index as int, value),
        removed == between@[index as int],
        after@ == between@.remove(index as int),
    ensures
        removed == value,
        after@ == before@,
{
    assert(before@.insert(index as int, value).remove(index as int) == before@);
}

} // verus!
