//! The most recent readings of a sensor.

use vstd::prelude::*;
use std::collections::VecDeque;

verus! {

/// How many readings a history holds for a chart.
pub const HISTORY_SIZE: usize = 256;

/// The last `size` values of `values`, or all of them where there are
/// fewer.
pub open spec fn recent(values: Seq<u8>, size: int) -> Seq<u8> {
    if values.len() <= size {
        values
    } else {
        values.subrange(values.len() - size, values.len() as int)
    }
}

/// The most recent readings of a sensor, oldest first, up to a fixed number.
#[derive(Debug)]
pub struct History {
    values: VecDeque<u8>,
    size: usize,
}

impl View for History {
    type V = Seq<u8>;

    closed spec fn view(&self) -> Seq<u8> {
        self.values@
    }
}

impl History {
    #[verifier::type_invariant]
    closed spec fn bounded(self) -> bool {
        self.values@.len() <= self.size
    }

    /// The number of readings the history holds at most.
    pub closed spec fn size(self) -> int {
        self.size as int
    }

    /// An empty history of at most `size` readings.
    pub fn new(size: usize) -> (history: History)
        ensures
            history@ == Seq::<u8>::empty(),
            history.size() == size,
    {
        History { values: VecDeque::new(), size }
    }

    /// The number of readings held.
    pub fn len(&self) -> (n: usize)
        ensures
            n == self@.len(),
            n <= self.size(),
    {
        proof {
            use_type_invariant(self);
        }
        self.values.len()
    }

    /// The reading at position `i`, counted from the oldest.
    pub fn get(&self, i: usize) -> (value: Option<u8>)
        ensures
            i < self@.len() ==> value == Some(self@[i as int]),
            i >= self@.len() ==> value is None,
    {
        if i < self.values.len() {
            Some(self.values[i])
        } else {
            None
        }
    }

    /// Takes in a reading. Where the history is full, its oldest reading
    /// makes room.
    pub fn push(&mut self, value: u8)
        ensures
            final(self)@ == recent(old(self)@.push(value), old(self).size()),
            final(self).size() == old(self).size(),
    {
        proof {
            use_type_invariant(&*self);
        }
        if self.size == 0 {
            assert(self.values@ =~= recent(self.values@.push(value), 0));
            return ;
        }
        let mut values = VecDeque::new();
        core::mem::swap(&mut self.values, &mut values);
        if values.len() == self.size {
            values.pop_front();
        }
        values.push_back(value);
        assert(values@ =~= recent(old(self)@.push(value), self.size as int));
        self.values = values;
    }
}

} // verus!
