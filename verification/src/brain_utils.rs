//! A sliding window over one stream of samples.

use crate::fifo::{push_bounded, push_evicting, queue_with_room};
use std::collections::VecDeque;
use vstd::prelude::*;

verus! {

/// A window of fixed size over a stream: it holds the newest samples, oldest
/// first, and never more than its capacity.
pub struct WindowBuffer<T> {
    buffer: VecDeque<T>,
    capacity: usize,
}

impl<T> View for WindowBuffer<T> {
    type V = Seq<T>;

    /// The samples in the window, oldest first.
    closed spec fn view(&self) -> Seq<T> {
        self.buffer@
    }
}

impl<T> WindowBuffer<T> {
    #[verifier::type_invariant]
    spec fn within_capacity(self) -> bool {
        self.buffer@.len() <= self.capacity
    }

    /// The most samples the window holds.
    pub closed spec fn spec_capacity(&self) -> nat {
        self.capacity as nat
    }

    /// An empty window for `size` samples.
    pub fn new(size: usize) -> (window: Self)
        ensures
            window@ == Seq::<T>::empty(),
            window.spec_capacity() == size,
    {
        Self { buffer: queue_with_room(size), capacity: size }
    }

    /// Takes in `val`. A full window lets its oldest sample go first; a
    /// window of size zero stays empty.
    pub fn push(&mut self, val: T)
        ensures
            final(self)@ == push_bounded(old(self)@, old(self).spec_capacity(), val),
            final(self).spec_capacity() == old(self).spec_capacity(),
    {
        proof {
            use_type_invariant(&*self);
        }
        let mut queue: VecDeque<T> = VecDeque::new();
        std::mem::swap(&mut self.buffer, &mut queue);
        push_evicting(&mut queue, self.capacity, val);
        std::mem::swap(&mut self.buffer, &mut queue);
    }

    /// Whether the window holds as many samples as it can.
    pub fn is_full(&self) -> (full: bool)
        ensures
            full == (self@.len() == self.spec_capacity()),
    {
        self.buffer.len() == self.capacity
    }

    /// The number of samples in the window.
    pub fn len(&self) -> (count: usize)
        ensures
            count == self@.len(),
            count <= self.spec_capacity(),
    {
        proof {
            use_type_invariant(self);
        }
        self.buffer.len()
    }

    /// The most samples the window holds.
    pub fn capacity(&self) -> (capacity: usize)
        ensures
            capacity == self.spec_capacity(),
    {
        self.capacity
    }

}

impl<T: Copy> WindowBuffer<T> {
    /// The sample at `index`, counted from the oldest; `None` past the end.
    pub fn get(&self, index: usize) -> (sample: Option<T>)
        ensures
            sample == if index < self@.len() {
                Some(self@[index as int])
            } else {
                None
            },
    {
        if index < self.buffer.len() {
            Some(self.buffer[index])
        } else {
            None
        }
    }

    /// The samples in the window, oldest first.
    pub fn to_vec(&self) -> (samples: Vec<T>)
        ensures
            samples@ == self@,
    {
        let mut samples: Vec<T> = Vec::new();
        let count: usize = self.buffer.len();
        let mut i: usize = 0;
        while i < count
            invariant
                count == self.buffer@.len(),
                i <= count,
                samples@ == self.buffer@.subrange(0, i as int),
            decreases count - i,
        {
            samples.push(self.buffer[i]);
            i += 1;
            assert(samples@ =~= self.buffer@.subrange(0, i as int));
        }
        assert(samples@ =~= self.buffer@);
        samples
    }
}

} // verus!
