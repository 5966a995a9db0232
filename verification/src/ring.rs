//! A fixed-capacity first-in first-out ring.

use vstd::prelude::*;

verus! {

/// Number of slots in a [`Ring`]. One slot always stays free, so a ring holds at most
/// `RING_CAPACITY - 1` values.
pub const RING_CAPACITY: usize = 128;

/// A ring buffer of fixed capacity, viewed as the sequence of its values from head to tail.
pub struct Ring<T> {
    buf: [T; 128],
    head: usize,
    tail: usize,
}

impl<T> View for Ring<T> {
    type V = Seq<T>;

    closed spec fn view(&self) -> Seq<T> {
        Seq::new(
            ring_distance(self.head as int, self.tail as int),
            |i: int| self.buf@[(self.head + i) % 128],
        )
    }
}

/// Number of slots from `head` up to `tail`, going round the end of the buffer.
spec fn ring_distance(head: int, tail: int) -> nat {
    if head <= tail {
        (tail - head) as nat
    } else {
        (tail + 128 - head) as nat
    }
}

impl<T> Ring<T> {
    #[verifier::type_invariant]
    spec fn slots_in_range(self) -> bool {
        self.head < 128 && self.tail < 128
    }
}

impl<T: Copy> Ring<T> {
    /// Creates an empty ring. `init_value` fills the unused slots and is never handed out.
    pub fn new(init_value: T) -> (r: Self)
        ensures
            r@ == Seq::<T>::empty(),
    {
        let r = Ring { buf: [init_value; 128], head: 0, tail: 0 };
        assert(r@ =~= Seq::<T>::empty());
        r
    }

    /// Puts `value` at the tail of the ring if space is available.
    /// Returns `true` if and only if `value` was placed in the ring.
    pub fn put(&mut self, value: T) -> (placed: bool)
        ensures
            placed == (old(self)@.len() < RING_CAPACITY - 1),
            placed ==> final(self)@ == old(self)@.push(value),
            !placed ==> final(self)@ == old(self)@,
    {
        proof {
            use_type_invariant(&*self);
        }
        let next: usize = (self.tail + 1) % RING_CAPACITY;
        if next != self.head {
            let at: usize = self.tail;
            self.buf[at] = value;
            self.tail = next;
            assert(self@ =~= old(self)@.push(value));
            true
        } else {
            false
        }
    }

    /// Takes the value at the head of the ring, if there is one.
    pub fn get(&mut self) -> (value: Option<T>)
        ensures
            old(self)@.len() == 0 ==> value is None && final(self)@ == old(self)@,
            old(self)@.len() > 0 ==> value == Some(old(self)@[0]) && final(self)@ == old(
                self,
            )@.skip(1),
    {
        proof {
            use_type_invariant(&*self);
        }
        if !self.is_empty() {
            let b = self.buf[self.head];
            self.head = (self.head + 1) % RING_CAPACITY;
            assert(self@ =~= old(self)@.skip(1));
            Some(b)
        } else {
            None
        }
    }

    /// The value at the head of the ring, if there is one, without taking it.
    pub fn peek(&self) -> (value: Option<T>)
        ensures
            value == (if self@.len() > 0 {
                Some(self@[0])
            } else {
                None
            }),
    {
        proof {
            use_type_invariant(self);
        }
        if !self.is_empty() {
            Some(self.buf[self.head])
        } else {
            None
        }
    }

    /// Tests whether the ring is empty.
    pub fn is_empty(&self) -> (empty: bool)
        ensures
            empty == (self@.len() == 0),
    {
        proof {
            use_type_invariant(self);
        }
        self.head == self.tail
    }

    /// Removes every value from the ring.
    pub fn clear(&mut self)
        ensures
            final(self)@ == Seq::<T>::empty(),
    {
        proof {
            use_type_invariant(&*self);
        }
        self.head = self.tail;
        assert(self@ =~= Seq::<T>::empty());
    }
}

} // verus!
