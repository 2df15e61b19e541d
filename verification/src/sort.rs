//! Merge sort on slices of integers.

use vstd::multiset::Multiset;
use vstd::prelude::*;
use vstd::seq_lib::{lemma_multiset_commutative, to_multiset_build};
use vstd::slice::slice_to_vec;

verus! {

/// `s` is in ascending order.
pub open spec fn sorted(s: Seq<i32>) -> bool {
    forall|i: int, j: int| 0 <= i <= j < s.len() ==> s[i] <= s[j]
}

/// The merge of `a` and `b`: again and again the smaller of the two front
/// items, the one of `a` where they are equal, until one sequence is used
/// up, and then the rest of the other.
pub open spec fn merged(a: Seq<i32>, b: Seq<i32>) -> Seq<i32>
    decreases a.len() + b.len(),
{
    if a.len() == 0 {
        b
    } else if b.len() == 0 {
        a
    } else if a[0] <= b[0] {
        seq![a[0]] + merged(a.drop_first(), b)
    } else {
        seq![b[0]] + merged(a, b.drop_first())
    }
}

/// Merges two slices into one vector that holds the items of both. Where
/// both slices are sorted, so is the vector.
pub fn merge(a: &[i32], b: &[i32]) -> (dest: Vec<i32>)
    requires
        a@.len() + b@.len() <= usize::MAX,
    ensures
        dest@ == merged(a@, b@),
        dest@.to_multiset() == a@.to_multiset().add(b@.to_multiset()),
        sorted(a@) && sorted(b@) ==> sorted(dest@),
{
    let mut dest: Vec<i32> = Vec::with_capacity(a.len() + b.len());
    let mut a_idx: usize = 0;
    let mut b_idx: usize = 0;

    proof {
        broadcast use vstd::multiset::group_multiset_axioms;

        assert(a@.skip(0) == a@);
        assert(b@.skip(0) == b@);
        assert(a@.take(0) == Seq::<i32>::empty());
        assert(b@.take(0) == Seq::<i32>::empty());
        assert(dest@ == Seq::<i32>::empty());
        Seq::<i32>::empty().to_multiset_ensures();
        vstd::multiset::lemma_multiset_empty_len(Seq::<i32>::empty().to_multiset());
        assert(dest@.to_multiset() == Multiset::<i32>::empty());
        assert(Multiset::<i32>::empty().add(Multiset::<i32>::empty()) == Multiset::<i32>::empty());
    }
    while a_idx < a.len() && b_idx < b.len()
        invariant
            a_idx <= a@.len(),
            b_idx <= b@.len(),
            dest@.len() == a_idx + b_idx,
            dest@ + merged(a@.skip(a_idx as int), b@.skip(b_idx as int)) == merged(a@, b@),
            dest@.to_multiset() == a@.take(a_idx as int).to_multiset().add(
                b@.take(b_idx as int).to_multiset(),
            ),
            sorted(a@) && sorted(b@) ==> sorted(dest@),
            sorted(a@) && sorted(b@) ==> forall|k: int|
                0 <= k < dest@.len() ==> {
                    &&& a_idx < a@.len() ==> #[trigger] dest@[k] <= a@[a_idx as int]
                    &&& b_idx < b@.len() ==> dest@[k] <= b@[b_idx as int]
                },
        decreases a@.len() - a_idx + b@.len() - b_idx,
    {
        let ghost a_left = a@.skip(a_idx as int);
        let ghost b_left = b@.skip(b_idx as int);
        if a[a_idx] <= b[b_idx] {
            proof {
                assert(a_left.drop_first() == a@.skip(a_idx + 1));
                assert(dest@.push(a@[a_idx as int]) + merged(a_left.drop_first(), b_left) == dest@
                    + (seq![a_left[0]] + merged(a_left.drop_first(), b_left)));
                to_multiset_build(dest@, a@[a_idx as int]);
                to_multiset_build(a@.take(a_idx as int), a@[a_idx as int]);
                assert(a@.take(a_idx as int).push(a@[a_idx as int]) == a@.take(a_idx + 1));
            }
            dest.push(a[a_idx]);
            a_idx += 1;
        } else {
            proof {
                assert(b_left.drop_first() == b@.skip(b_idx + 1));
                assert(dest@.push(b@[b_idx as int]) + merged(a_left, b_left.drop_first()) == dest@
                    + (seq![b_left[0]] + merged(a_left, b_left.drop_first())));
                to_multiset_build(dest@, b@[b_idx as int]);
                to_multiset_build(b@.take(b_idx as int), b@[b_idx as int]);
                assert(b@.take(b_idx as int).push(b@[b_idx as int]) == b@.take(b_idx + 1));
            }
            dest.push(b[b_idx]);
            b_idx += 1;
        }
    }

    let ghost front = dest@;
    let ghost a_rest = a@.subrange(a_idx as int, a@.len() as int);
    let ghost b_rest = b@.subrange(b_idx as int, b@.len() as int);
    dest.extend_from_slice(&a[a_idx..a.len()]);
    dest.extend_from_slice(&b[b_idx..b.len()]);
    proof {
        assert(a_rest == a@.skip(a_idx as int));
        assert(b_rest == b@.skip(b_idx as int));
        assert(merged(a_rest, b_rest) == a_rest + b_rest);
        assert(dest@ == front + a_rest + b_rest);
        assert(a@ == a@.take(a_idx as int) + a_rest);
        assert(b@ == b@.take(b_idx as int) + b_rest);
        lemma_multiset_commutative(front + a_rest, b_rest);
        lemma_multiset_commutative(front, a_rest);
        lemma_multiset_commutative(a@.take(a_idx as int), a_rest);
        lemma_multiset_commutative(b@.take(b_idx as int), b_rest);
    }
    dest
}

/// Sorts `data` into a fresh vector: the result is in ascending order and
/// holds exactly the items of `data`.
pub fn merge_sort(data: &[i32]) -> (sorted_data: Vec<i32>)
    ensures
        sorted(sorted_data@),
        sorted_data@.to_multiset() == data@.to_multiset(),
    decreases data@.len(),
{
    if data.len() <= 1 {
        slice_to_vec(data)
    } else {
        let mid = data.len() / 2;
        let left = merge_sort(&data[0..mid]);
        let right = merge_sort(&data[mid..data.len()]);
        proof {
            let front = data@.subrange(0, mid as int);
            let back = data@.subrange(mid as int, data@.len() as int);
            assert(data@ == front + back);
            lemma_multiset_commutative(front, back);
            left@.to_multiset_ensures();
            right@.to_multiset_ensures();
            front.to_multiset_ensures();
            back.to_multiset_ensures();
        }
        merge(left.as_slice(), right.as_slice())
    }
}

} // verus!
