//! Per-actor durable storage.
//!
//! A `StateCell` holds the committed value of one actor's state. It is the
//! only thing a fresh read ever observes: a handler's working copy becomes
//! visible here exactly when the checkpoint manager commits it.

use vstd::prelude::*;

verus! {

/// The committed state of one actor. The view of a cell is the committed
/// value itself.
#[derive(Clone, Copy)]
pub struct StateCell {
    value: u64,
}

impl View for StateCell {
    type V = u64;

    closed spec fn view(&self) -> u64 {
        self.value
    }
}

impl StateCell {
    /// Creates a cell whose committed value is `value`.
    pub fn new(value: u64) -> (cell: StateCell)
        ensures
            cell@ == value,
    {
        StateCell { value }
    }

    /// Synchronous, authoritative read of the committed value. It neither
    /// suspends nor mutates: with no intervening commit, every read of the
    /// same cell returns the same value.
    pub fn read(&self) -> (value: u64)
        ensures
            value == self@,
    {
        self.value
    }

    /// Atomically replaces the committed value. Committing is unconditional
    /// once authorized by the checkpoint manager; there are no error
    /// conditions.
    pub fn commit(&mut self, new_value: u64)
        ensures
            final(self)@ == new_value,
    {
        self.value = new_value;
    }
}

} // verus!
