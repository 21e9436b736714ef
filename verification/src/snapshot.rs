//! The pair of snapshots kept between polls: the value read last and the one
//! read just before it.

use vstd::prelude::*;
use crate::memory::State;

verus! {

/// Two values of one record type. `previous` is what `current` was one
/// successful read earlier, or the initial value before the first read.
#[derive(Debug, Copy, Clone, PartialEq, Eq)]
pub struct SnapshotPair<T> {
    pub current: T,
    pub previous: T,
}

impl<T> SnapshotPair<T> {
    /// The pair after a new value was read.
    pub open spec fn advanced(self, new_value: T) -> SnapshotPair<T> {
        SnapshotPair { current: new_value, previous: self.current }
    }

    /// The snapshot of a timeline.
    pub open spec fn spec_get(self, timeline: State) -> T {
        match timeline {
            State::Current => self.current,
            State::Old => self.previous,
        }
    }

    /// Takes in a new value: what was current becomes previous, the new value
    /// becomes current, both at once.
    pub fn advance(&mut self, new_value: T)
        ensures
            *final(self) == old(self).advanced(new_value),
            final(self).previous == old(self).current,
            final(self).current == new_value,
    {
        let mut incoming = new_value;
        core::mem::swap(&mut self.current, &mut incoming);
        self.previous = incoming;
    }

    /// The snapshot of a timeline.
    pub fn get(&self, timeline: State) -> (value: &T)
        ensures
            *value == self.spec_get(timeline),
    {
        match timeline {
            State::Current => &self.current,
            State::Old => &self.previous,
        }
    }
}

impl<T: Copy> SnapshotPair<T> {
    /// The pair before anything was read: both snapshots hold the initial
    /// value.
    pub fn new(initial: T) -> (pair: SnapshotPair<T>)
        ensures
            pair.current == initial,
            pair.previous == initial,
    {
        SnapshotPair { current: initial, previous: initial }
    }
}

/// Advancing twice by one value leaves both snapshots equal to it.
pub proof fn lemma_advance_twice<T>(pair: SnapshotPair<T>, value: T)
    ensures
        pair.advanced(value).advanced(value).current == value,
        pair.advanced(value).advanced(value).previous == value,
        pair.advanced(value).previous == pair.current,
{
}

} // verus!
