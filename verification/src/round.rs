//! The round counter and the phase that says which action is legal.

use vstd::prelude::*;

verus! {

/// The two phases of a round. In `Draw` the player may draw, in `Play` the
/// player may end the round.
#[derive(Debug, Clone, Copy, PartialEq, Eq, Hash, Structural)]
pub enum Phase {
    Draw,
    Play,
}

/// Counts the rounds that were resolved.
#[derive(Debug, Clone, Copy, PartialEq, Eq, Structural)]
pub struct Round {
    counter: u64,
}

impl View for Round {
    type V = nat;

    closed spec fn view(&self) -> nat {
        self.counter as nat
    }
}

impl Round {
    /// The counter of a match that has just begun.
    pub fn new() -> (round: Round)
        ensures
            round@ == 0,
    {
        Round { counter: 0 }
    }

    /// A counter that stands at `counter`.
    pub fn at(counter: u64) -> (round: Round)
        ensures
            round@ == counter,
    {
        Round { counter }
    }

    /// The number of rounds counted.
    pub fn counter(&self) -> (counter: u64)
        ensures
            counter == self@,
    {
        self.counter
    }

    /// Counts one more round.
    pub fn advance(&mut self)
        requires
            old(self)@ < u64::MAX,
        ensures
            final(self)@ == old(self)@ + 1,
    {
        self.counter = self.counter + 1;
    }
}

} // verus!
