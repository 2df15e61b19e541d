use local_storage_vec::LocalStorageVec;
use std::ops::{Deref, DerefMut};

/// A value whose clone can be told from the value itself: cloning adds one.
#[derive(Debug, Default, PartialEq)]
struct Tally(u32);

impl Clone for Tally {
    fn clone(&self) -> Self {
        Tally(self.0 + 1)
    }
}

#[test]
fn it_from_vecs() {
    let vec: LocalStorageVec<usize, 10> = LocalStorageVec::from(vec![1, 2, 3]);
    assert!(matches!(vec, LocalStorageVec::Stack { .. }));

    let vec: LocalStorageVec<usize, 2> = LocalStorageVec::from(vec![1, 2, 3]);
    assert!(matches!(vec, LocalStorageVec::Heap(_)));
}

#[test]
fn it_as_refs() {
    let vec: LocalStorageVec<i32, 256> = LocalStorageVec::from([0; 128]);
    let slice: &[i32] = vec.as_ref();
    assert!(slice.len() == 128);
    let vec: LocalStorageVec<i32, 32> = LocalStorageVec::from([0; 128]);
    let slice: &[i32] = vec.as_ref();
    assert!(slice.len() == 128);

    let mut vec: LocalStorageVec<i32, 256> = LocalStorageVec::from([0; 128]);
    let slice_mut: &[i32] = vec.as_mut();
    assert!(slice_mut.len() == 128);
    let mut vec: LocalStorageVec<i32, 32> = LocalStorageVec::from([0; 128]);
    let slice_mut: &[i32] = vec.as_mut();
    assert!(slice_mut.len() == 128);
}

#[test]
fn it_constructs() {
    let vec: LocalStorageVec<usize, 10> = LocalStorageVec::new();
    assert!(matches!(vec, LocalStorageVec::Stack { buf: _, len: 0 }));
}

#[test]
fn it_lens() {
    let vec: LocalStorageVec<_, 3> = LocalStorageVec::from([0, 1, 2]);
    assert_eq!(vec.len(), 3);
    let vec: LocalStorageVec<_, 2> = LocalStorageVec::from([0, 1, 2]);
    assert_eq!(vec.len(), 3);
}

#[test]
fn it_pushes() {
    let mut vec: LocalStorageVec<_, 128> = LocalStorageVec::new();
    for value in 0..128 {
        vec.push(value);
    }
    assert!(matches!(vec, LocalStorageVec::Stack { len: 128, .. }));
    for value in 128..256 {
        vec.push(value);
    }
    assert!(matches!(vec, LocalStorageVec::Heap(v) if v.len() == 256))
}

#[test]
fn it_pops() {
    let mut vec: LocalStorageVec<_, 128> = LocalStorageVec::from([0; 128]);
    for _ in 0..128 {
        assert_eq!(vec.pop(), Some(0))
    }
    assert_eq!(vec.pop(), None);

    let mut vec: LocalStorageVec<_, 128> = LocalStorageVec::from([0; 256]);
    for _ in 0..256 {
        assert_eq!(vec.pop(), Some(0))
    }
    assert_eq!(vec.pop(), None);

    let mut vec: LocalStorageVec<_, 128> = LocalStorageVec::from(vec![0; 256]);
    for _ in 0..256 {
        assert_eq!(vec.pop(), Some(0))
    }
    assert_eq!(vec.pop(), None);
}

#[test]
fn it_inserts() {
    let mut vec: LocalStorageVec<_, 4> = LocalStorageVec::from([0, 1, 2]);
    vec.insert(1, 3);
    assert!(matches!(vec, LocalStorageVec::Stack { buf: [0, 3, 1, 2], len: 4 }));

    let mut vec: LocalStorageVec<_, 4> = LocalStorageVec::from([0, 1, 2, 3]);
    vec.insert(1, 3);
    assert!(matches!(vec, LocalStorageVec::Heap { .. }));
    assert_eq!(vec.as_ref(), &[0, 3, 1, 2, 3]);

    let mut vec: LocalStorageVec<_, 4> = LocalStorageVec::from([0, 1, 2, 3, 4]);
    vec.insert(1, 3);
    assert!(matches!(vec, LocalStorageVec::Heap { .. }));
    assert_eq!(vec.as_ref(), &[0, 3, 1, 2, 3, 4])
}

#[test]
fn it_removes() {
    let mut vec: LocalStorageVec<_, 4> = LocalStorageVec::from([0, 1, 2]);
    let elem = vec.remove(1);
    assert!(matches!(vec, LocalStorageVec::Stack { buf: [0, 2, _, _], len: 2 }));
    assert_eq!(elem, 1);

    let mut vec: LocalStorageVec<_, 2> = LocalStorageVec::from([0, 1, 2]);
    let elem = vec.remove(1);
    assert!(matches!(vec, LocalStorageVec::Heap(..)));
    assert_eq!(vec.as_ref(), &[0, 2]);
    assert_eq!(elem, 1);
}

#[test]
fn it_clears() {
    let mut vec: LocalStorageVec<_, 10> = LocalStorageVec::from([0, 1, 2, 3]);
    assert!(matches!(vec, LocalStorageVec::Stack { buf: _, len: 4 }));
    vec.clear();
    assert_eq!(vec.len(), 0);
    assert!(matches!(vec, LocalStorageVec::Stack { .. }));

    let mut vec: LocalStorageVec<_, 3> = LocalStorageVec::from([0, 1, 2, 3]);
    assert!(matches!(vec, LocalStorageVec::Heap(_)));
    vec.clear();
    assert_eq!(vec.len(), 0);
    assert!(matches!(vec, LocalStorageVec::Heap(_)));
}

#[test]
fn it_iters() {
    let vec: LocalStorageVec<_, 128> = LocalStorageVec::from([0; 32]);
    let mut iter = vec.into_iter();
    let mut count = 0;
    while let Some(item) = iter.next() {
        assert_eq!(item, 0);
        count += 1;
    }
    assert_eq!(count, 32);
    assert_eq!(iter.next(), None);

    let vec: LocalStorageVec<_, 128> = LocalStorageVec::from(vec![0; 128]);
    let mut iter = vec.into_iter();
    let mut count = 0;
    while let Some(item) = iter.next() {
        assert_eq!(item, 0);
        count += 1;
    }
    assert_eq!(count, 128);
    assert_eq!(iter.next(), None);
}

#[test]
fn it_indexes() {
    let vec: LocalStorageVec<i32, 10> = LocalStorageVec::from([0, 1, 2, 3, 4, 5]);
    assert_eq!(vec[1], 1);
    assert_eq!(vec[..2], [0, 1]);
    assert_eq!(vec[4..], [4, 5]);
    assert_eq!(vec[1..3], [1, 2]);
}

#[test]
fn it_borrowing_iters() {
    let vec: LocalStorageVec<String, 10> = LocalStorageVec::from([
        "0".to_owned(),
        "1".to_owned(),
        "2".to_owned(),
        "3".to_owned(),
        "4".to_owned(),
        "5".to_owned(),
    ]);
    let iter = vec.iter();
    for _ in iter {}
    drop(vec);
}

#[test]
fn it_derefs() {
    let vec: LocalStorageVec<_, 128> = LocalStorageVec::from([0; 128]);
    let chunks = vec.chunks(4);
    assert_eq!(chunks.len(), 32);
    let slice: &[i32] = vec.deref();
    assert_eq!(slice.len(), 128);

    let mut vec: LocalStorageVec<_, 128> = LocalStorageVec::from([0; 128]);
    let chunks = vec.chunks_mut(4);
    assert_eq!(chunks.len(), 32);
    let slice: &mut [i32] = vec.deref_mut();
    assert_eq!(slice.len(), 128);
}

#[test]
fn new_fills_every_slot_with_the_default() {
    let vec: LocalStorageVec<i32, 3> = LocalStorageVec::new();
    assert!(matches!(vec, LocalStorageVec::Stack { buf: [0, 0, 0], len: 0 }));
    assert!(!vec.is_heap());
    assert_eq!(vec.len(), 0);

    let vec: LocalStorageVec<String, 2> = LocalStorageVec::new();
    match vec {
        LocalStorageVec::Stack { buf, len } => {
            assert_eq!(len, 0);
            assert_eq!(buf, [String::new(), String::new()]);
        }
        LocalStorageVec::Heap(_) => panic!("a new list is inline"),
    }
}

#[test]
fn from_array_is_inline_up_to_capacity() {
    let vec: LocalStorageVec<i32, 4> = LocalStorageVec::from([7, 8]);
    assert!(matches!(vec, LocalStorageVec::Stack { buf: [7, 8, 0, 0], len: 2 }));
    let vec: LocalStorageVec<i32, 2> = LocalStorageVec::from([7, 8]);
    assert!(matches!(vec, LocalStorageVec::Stack { buf: [7, 8], len: 2 }));
    let vec: LocalStorageVec<i32, 0> = LocalStorageVec::from([]);
    assert!(matches!(vec, LocalStorageVec::Stack { buf: [], len: 0 }));
}

#[test]
fn from_array_is_on_the_heap_past_capacity() {
    let vec: LocalStorageVec<i32, 1> = LocalStorageVec::from([7, 8]);
    assert!(matches!(&vec, LocalStorageVec::Heap(v) if v == &[7, 8]));
    let vec: LocalStorageVec<i32, 0> = LocalStorageVec::from([7]);
    assert!(matches!(&vec, LocalStorageVec::Heap(v) if v == &[7]));
}

#[test]
fn from_vec_keeps_items_and_order() {
    let vec: LocalStorageVec<i32, 3> = LocalStorageVec::from(vec![4, 5, 6]);
    assert!(matches!(vec, LocalStorageVec::Stack { buf: [4, 5, 6], len: 3 }));
    let vec: LocalStorageVec<i32, 5> = LocalStorageVec::from(vec![4, 5, 6]);
    assert!(matches!(vec, LocalStorageVec::Stack { buf: [4, 5, 6, 0, 0], len: 3 }));
    let vec: LocalStorageVec<i32, 2> = LocalStorageVec::from(vec![4, 5, 6]);
    assert!(matches!(&vec, LocalStorageVec::Heap(v) if v == &[4, 5, 6]));
    let vec: LocalStorageVec<i32, 2> = LocalStorageVec::from(Vec::new());
    assert!(matches!(vec, LocalStorageVec::Stack { len: 0, .. }));
}

#[test]
fn length_is_the_source_length_in_both_variants() {
    let vec: LocalStorageVec<u8, 10> = LocalStorageVec::from([1, 2, 3]);
    assert_eq!(vec.len(), 3);
    assert!(!vec.is_heap());
    let vec: LocalStorageVec<u8, 2> = LocalStorageVec::from([1, 2, 3]);
    assert_eq!(vec.len(), 3);
    assert!(vec.is_heap());
}

#[test]
fn push_moves_to_the_heap_exactly_past_capacity() {
    let mut vec: LocalStorageVec<usize, 3> = LocalStorageVec::new();
    for pushed in 0..3 {
        assert!(!vec.is_heap());
        vec.push(pushed);
        assert_eq!(vec.len(), pushed + 1);
    }
    assert!(matches!(vec, LocalStorageVec::Stack { buf: [0, 1, 2], len: 3 }));
    vec.push(3);
    assert!(vec.is_heap());
    assert_eq!(vec.as_ref(), &[0, 1, 2, 3]);
    vec.push(4);
    assert!(vec.is_heap());
    assert_eq!(vec.as_ref(), &[0, 1, 2, 3, 4]);
}

#[test]
fn push_onto_zero_capacity_goes_to_the_heap_at_once() {
    let mut vec: LocalStorageVec<char, 0> = LocalStorageVec::new();
    assert!(!vec.is_heap());
    vec.push('a');
    assert!(vec.is_heap());
    assert_eq!(vec.as_ref(), &['a']);
}

#[test]
fn push_128_stays_inline_and_one_more_spills() {
    let mut vec: LocalStorageVec<i32, 128> = LocalStorageVec::new();
    for value in 0..128 {
        vec.push(value);
    }
    assert!(matches!(vec, LocalStorageVec::Stack { len: 128, .. }));
    assert_eq!(vec.len(), 128);
    vec.push(128);
    assert!(matches!(vec, LocalStorageVec::Heap(_)));
    assert_eq!(vec.len(), 129);
    assert_eq!(vec[128], 128);
    assert_eq!(vec[0], 0);
}

#[test]
fn pop_128_defaults_then_empty() {
    let mut vec: LocalStorageVec<i32, 128> = LocalStorageVec::from([i32::default(); 128]);
    for _ in 0..128 {
        assert_eq!(vec.pop(), Some(i32::default()));
    }
    assert_eq!(vec.pop(), None);
    assert!(matches!(vec, LocalStorageVec::Stack { len: 0, .. }));
}

#[test]
fn pop_never_returns_to_the_inline_buffer() {
    let mut vec: LocalStorageVec<i32, 2> = LocalStorageVec::from([1, 2, 3]);
    assert_eq!(vec.pop(), Some(3));
    assert_eq!(vec.pop(), Some(2));
    assert!(vec.is_heap());
    assert_eq!(vec.pop(), Some(1));
    assert_eq!(vec.pop(), None);
    assert!(matches!(&vec, LocalStorageVec::Heap(v) if v.is_empty()));
    assert_eq!(vec.len(), 0);

    let mut vec: LocalStorageVec<i32, 3> = LocalStorageVec::from([1, 2, 3]);
    assert_eq!(vec.pop(), Some(3));
    assert_eq!(vec.pop(), Some(2));
    assert_eq!(vec.pop(), Some(1));
    assert_eq!(vec.pop(), None);
    assert!(matches!(vec, LocalStorageVec::Stack { buf: [0, 0, 0], len: 0 }));
}

#[test]
fn pops_return_pushes_in_reverse() {
    let mut vec: LocalStorageVec<i32, 2> = LocalStorageVec::from([9]);
    for value in [10, 20, 30, 40] {
        vec.push(value);
    }
    assert_eq!(vec.pop(), Some(40));
    assert_eq!(vec.pop(), Some(30));
    assert_eq!(vec.pop(), Some(20));
    assert_eq!(vec.pop(), Some(10));
    assert_eq!(vec.as_ref(), &[9]);
}

#[test]
fn pushed_values_cross_to_the_heap_without_being_cloned() {
    let mut vec: LocalStorageVec<Tally, 2> = LocalStorageVec::new();
    vec.push(Tally(0));
    vec.push(Tally(0));
    vec.push(Tally(0));
    assert!(vec.is_heap());
    assert_eq!(vec.pop(), Some(Tally(0)));
    assert_eq!(vec.pop(), Some(Tally(0)));
    assert_eq!(vec.pop(), Some(Tally(0)));
}

#[test]
fn from_array_clones_into_the_inline_buffer() {
    let vec: LocalStorageVec<Tally, 2> = LocalStorageVec::from([Tally(0), Tally(5)]);
    assert_eq!(vec.as_ref(), &[Tally(1), Tally(6)]);
    let vec: LocalStorageVec<Tally, 1> = LocalStorageVec::from([Tally(0), Tally(5)]);
    assert_eq!(vec.as_ref(), &[Tally(0), Tally(5)]);
    let vec: LocalStorageVec<Tally, 2> = LocalStorageVec::from(vec![Tally(0), Tally(5)]);
    assert_eq!(vec.as_ref(), &[Tally(0), Tally(5)]);
}

#[test]
fn view_length_equals_len_after_mutations() {
    let mut vec: LocalStorageVec<i32, 2> = LocalStorageVec::new();
    assert_eq!(vec.as_ref().len(), vec.len());
    vec.push(1);
    assert_eq!(vec.as_ref().len(), vec.len());
    vec.insert(0, 2);
    assert_eq!(vec.as_ref().len(), vec.len());
    vec.push(3);
    assert_eq!(vec.as_ref().len(), vec.len());
    assert_eq!(vec.as_mut().len(), 3);
    vec.remove(1);
    assert_eq!(vec.as_ref().len(), vec.len());
    vec.pop();
    assert_eq!(vec.as_ref().len(), vec.len());
    vec.clear();
    assert_eq!(vec.as_ref().len(), vec.len());
    assert_eq!(vec.len(), 0);
}

#[test]
fn remove_undoes_insert() {
    let mut vec: LocalStorageVec<i32, 4> = LocalStorageVec::from([1, 2, 3]);
    vec.insert(1, 9);
    assert_eq!(vec.as_ref(), &[1, 9, 2, 3]);
    assert_eq!(vec.remove(1), 9);
    assert_eq!(vec.as_ref(), &[1, 2, 3]);
    assert!(!vec.is_heap());

    let mut vec: LocalStorageVec<i32, 3> = LocalStorageVec::from([1, 2, 3]);
    vec.insert(3, 9);
    assert!(vec.is_heap());
    assert_eq!(vec.remove(3), 9);
    assert_eq!(vec.as_ref(), &[1, 2, 3]);
    assert!(vec.is_heap());
}

#[test]
fn insert_at_both_ends() {
    let mut vec: LocalStorageVec<i32, 4> = LocalStorageVec::from([1, 2]);
    vec.insert(0, 0);
    assert!(matches!(vec, LocalStorageVec::Stack { buf: [0, 1, 2, 0], len: 3 }));
    vec.insert(3, 3);
    assert!(matches!(vec, LocalStorageVec::Stack { buf: [0, 1, 2, 3], len: 4 }));
    vec.insert(0, -1);
    assert!(matches!(&vec, LocalStorageVec::Heap(v) if v == &[-1, 0, 1, 2, 3]));
}

#[test]
fn remove_first_and_last() {
    let mut vec: LocalStorageVec<i32, 4> = LocalStorageVec::from([5, 6, 7, 8]);
    assert_eq!(vec.remove(0), 5);
    assert!(matches!(vec, LocalStorageVec::Stack { buf: [6, 7, 8, 0], len: 3 }));
    assert_eq!(vec.remove(2), 8);
    assert!(matches!(vec, LocalStorageVec::Stack { buf: [6, 7, 0, 0], len: 2 }));
}

#[test]
fn clear_resets_the_inline_slots() {
    let mut vec: LocalStorageVec<i32, 3> = LocalStorageVec::from([5, 6]);
    vec.clear();
    assert!(matches!(vec, LocalStorageVec::Stack { buf: [0, 0, 0], len: 0 }));
}

#[test]
fn as_mut_writes_through() {
    let mut vec: LocalStorageVec<i32, 4> = LocalStorageVec::from([1, 2, 3]);
    vec.as_mut()[1] = 20;
    assert!(matches!(vec, LocalStorageVec::Stack { buf: [1, 20, 3, 0], len: 3 }));
    let mut vec: LocalStorageVec<i32, 2> = LocalStorageVec::from([1, 2, 3]);
    vec.as_mut()[2] = 30;
    assert_eq!(vec.as_ref(), &[1, 2, 30]);
    vec.as_mut()[0] = 10;
    assert_eq!(vec.as_ref(), &[10, 2, 30]);
}

#[test]
fn owning_iterator_yields_in_order() {
    let vec: LocalStorageVec<i32, 4> = LocalStorageVec::from([1, 2, 3]);
    let mut iter = vec.into_iter();
    assert_eq!(iter.next(), Some(1));
    assert_eq!(iter.next(), Some(2));
    assert_eq!(iter.next(), Some(3));
    assert_eq!(iter.next(), None);
    assert_eq!(iter.next(), None);

    let vec: LocalStorageVec<String, 1> =
        LocalStorageVec::from(vec!["a".to_owned(), "b".to_owned()]);
    let mut iter = vec.into_iter();
    assert_eq!(iter.next(), Some("a".to_owned()));
    assert_eq!(iter.next(), Some("b".to_owned()));
    assert_eq!(iter.next(), None);
}

#[test]
fn borrowing_iterator_yields_in_order_and_restarts() {
    let vec: LocalStorageVec<i32, 2> = LocalStorageVec::from([1, 2, 3]);
    let seen: Vec<i32> = vec.iter().copied().collect();
    assert_eq!(seen, vec![1, 2, 3]);
    let again: Vec<i32> = vec.iter().copied().collect();
    assert_eq!(again, vec![1, 2, 3]);
    assert_eq!(vec.len(), 3);

    let vec: LocalStorageVec<i32, 8> = LocalStorageVec::from([1, 2, 3]);
    let seen: Vec<i32> = vec.iter().copied().collect();
    assert_eq!(seen, vec![1, 2, 3]);
}
