//! The batch buffer: a bounded, ordered accumulation of encoded units.

use vstd::prelude::*;
use crate::batch::{Batch, unit_bytes};

verus! {

/// Encoded units waiting for transmission, oldest first.
///
/// Units enter at the end through [`BatchBuffer::append`] and leave only all
/// at once through [`BatchBuffer::drain_all`]. The buffer never holds more
/// than its capacity.
pub struct BatchBuffer {
    units: Vec<Vec<u8>>,
    capacity: usize,
}

impl BatchBuffer {
    /// The buffered units, oldest first, each as its bytes.
    pub closed spec fn view(&self) -> Seq<Seq<u8>> {
        unit_bytes(self.units@)
    }

    /// The largest number of units the buffer may hold.
    pub closed spec fn spec_capacity(&self) -> nat {
        self.capacity as nat
    }

    /// The capacity is positive and the length stays within it.
    pub open spec fn wf(&self) -> bool {
        0 < self.spec_capacity() && self@.len() <= self.spec_capacity()
    }

    /// An empty buffer for up to `capacity` units.
    pub fn new(capacity: usize) -> (buffer: Self)
        requires
            capacity > 0,
        ensures
            buffer.wf(),
            buffer@ == Seq::<Seq<u8>>::empty(),
            buffer.spec_capacity() == capacity,
    {
        let buffer = BatchBuffer { units: Vec::new(), capacity };
        buffer
    }

    /// The largest number of units the buffer may hold.
    pub fn capacity(&self) -> (capacity: usize)
        ensures
            capacity == self.spec_capacity(),
    {
        self.capacity
    }

    /// How many units are buffered.
    pub fn length(&self) -> (length: usize)
        ensures
            length == self@.len(),
    {
        self.units.len()
    }

    /// Whether nothing is buffered.
    pub fn is_empty(&self) -> (empty: bool)
        ensures
            empty == (self@.len() == 0),
    {
        self.units.len() == 0
    }

    /// Whether the buffer has reached its capacity, so that a batch must be
    /// cut before the next unit can enter.
    pub fn is_full(&self) -> (full: bool)
        ensures
            full == (self@.len() >= self.spec_capacity()),
    {
        self.units.len() >= self.capacity
    }

    /// Adds `unit` at the end. Appending to a full buffer is not permitted.
    pub fn append(&mut self, unit: Vec<u8>)
        requires
            old(self).wf(),
            old(self)@.len() < old(self).spec_capacity(),
        ensures
            final(self).wf(),
            final(self)@ == old(self)@.push(unit@),
            final(self).spec_capacity() == old(self).spec_capacity(),
    {
        self.units.push(unit);
    }

    /// Removes and returns everything that is buffered, oldest first. This is
    /// the only way for units to leave the buffer.
    pub fn drain_all(&mut self) -> (batch: Batch)
        requires
            old(self).wf(),
        ensures
            final(self).wf(),
            batch@ == old(self)@,
            final(self)@ == Seq::<Seq<u8>>::empty(),
            final(self).spec_capacity() == old(self).spec_capacity(),
    {
        let mut units: Vec<Vec<u8>> = Vec::new();
        std::mem::swap(&mut self.units, &mut units);
        Batch { units }
    }
}

} // verus!
