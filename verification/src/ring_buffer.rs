//! A queue of bytes in a circular buffer of fixed size.

use vstd::prelude::*;

verus! {

/// `Vec::into_boxed_slice` turns a vector into a boxed slice that holds the
/// same items in the same order.
#[verifier::external_body]
fn into_boxed_slice(vec: Vec<u8>) -> (boxed: Box<[u8]>)
    ensures
        boxed@ == vec@,
{
    vec.into_boxed_slice()
}

/// A boxed slice of `reqsize` zero bytes.
pub fn make_box(reqsize: usize) -> (boxed: Box<[u8]>)
    ensures
        boxed@.len() == reqsize,
        forall|i: int| 0 <= i < reqsize ==> boxed@[i] == 0,
{
    into_boxed_slice(vec![0; reqsize])
}

/// In a buffer of `size` slots, the slot after `pos` is the next one, or
/// the first one after the last.
proof fn lemma_next_slot(pos: int, size: int)
    requires
        0 <= pos < size,
    ensures
        (pos + 1) % size == if pos + 1 == size {
            0
        } else {
            pos + 1
        },
{
    if pos + 1 == size {
        vstd::arithmetic::div_mod::lemma_mod_self_0(size);
    } else {
        vstd::arithmetic::div_mod::lemma_small_mod((pos + 1) as nat, size as nat);
    }
}

/// A first-in, first-out queue of bytes. The bytes between `start` and
/// `end` are queued; one slot always stays free, so a buffer of `size`
/// slots queues at most `size - 1` bytes.
pub struct RingBuffer {
    data: Box<[u8]>,
    start: usize,
    end: usize,
    size: usize,
}

impl View for RingBuffer {
    type V = Seq<u8>;

    /// The queued bytes, oldest first.
    closed spec fn view(&self) -> Seq<u8> {
        if self.start <= self.end {
            self.data@.subrange(self.start as int, self.end as int)
        } else {
            self.data@.subrange(self.start as int, self.size as int) + self.data@.subrange(
                0,
                self.end as int,
            )
        }
    }
}

impl RingBuffer {
    #[verifier::type_invariant]
    spec fn inv(self) -> bool {
        &&& self.data@.len() == self.size
        &&& self.size == 0 ==> self.start == 0 && self.end == 0
        &&& self.size > 0 ==> self.start < self.size && self.end < self.size
    }

    /// The number of slots of the buffer.
    pub closed spec fn slots(&self) -> nat {
        self.size as nat
    }

    /// An empty queue in a buffer of `size` slots.
    pub fn new(size: usize) -> (queue: RingBuffer)
        ensures
            queue@ == Seq::<u8>::empty(),
            queue.slots() == size,
    {
        RingBuffer { data: make_box(size), start: 0, end: 0, size }
    }

    /// Takes the oldest byte out of the queue, or returns `None` when the
    /// queue is empty.
    pub fn read(&mut self) -> (byte: Option<u8>)
        ensures
            final(self).slots() == old(self).slots(),
            old(self)@.len() == 0 ==> byte is None && final(self)@ == old(self)@,
            old(self)@.len() > 0 ==> byte == Some(old(self)@.first()) && final(self)@ == old(
                self,
            )@.drop_first(),
    {
        proof {
            use_type_invariant(&*self);
        }
        if self.start == self.end {
            None
        } else {
            let value = self.data[self.start];
            proof {
                lemma_next_slot(self.start as int, self.size as int);
            }
            self.start = (self.start + 1) % self.size;
            assert(self@ == old(self)@.drop_first());
            Some(value)
        }
    }

    /// Puts `value` at the back of the queue and returns `true`, or
    /// returns `false` and leaves the queue as it is when it has no room.
    pub fn write(&mut self, value: u8) -> (written: bool)
        requires
            old(self).slots() > 0,
        ensures
            final(self).slots() == old(self).slots(),
            written <==> old(self)@.len() + 1 < old(self).slots(),
            written ==> final(self)@ == old(self)@.push(value),
            !written ==> final(self)@ == old(self)@,
    {
        proof {
            use_type_invariant(&*self);
        }
        proof {
            lemma_next_slot(self.end as int, self.size as int);
        }
        let next_pos = (self.end + 1) % self.size;
        if next_pos == self.start {
            false
        } else {
            self.data[self.end] = value;
            self.end = next_pos;
            assert(self@ == old(self)@.push(value));
            true
        }
    }

    /// Whether a `write` would succeed.
    pub fn has_room(&self) -> (room: bool)
        requires
            self.slots() > 0,
        ensures
            room <==> self@.len() + 1 < self.slots(),
    {
        proof {
            use_type_invariant(self);
            lemma_next_slot(self.end as int, self.size as int);
        }
        (self.end + 1) % self.size != self.start
    }

    /// The oldest byte of the queue, which stays queued, or `None` when the
    /// queue is empty.
    pub fn peek(&self) -> (byte: Option<u8>)
        ensures
            self@.len() == 0 ==> byte is None,
            self@.len() > 0 ==> byte == Some(self@.first()),
    {
        proof {
            use_type_invariant(self);
        }
        if self.start == self.end {
            None
        } else {
            Some(self.data[self.start])
        }
    }
}

} // verus!
