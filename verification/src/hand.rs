//! The cards that a side has drawn and not yet placed.

use crate::card::CardHandle;
use vstd::prelude::*;

verus! {

/// An ordered collection of cards, oldest first.
#[derive(Debug)]
pub struct Hand {
    cards: Vec<CardHandle>,
}

impl View for Hand {
    type V = Seq<CardHandle>;

    closed spec fn view(&self) -> Seq<CardHandle> {
        self.cards@
    }
}

impl Hand {
    /// A hand without cards.
    pub fn new() -> (hand: Hand)
        ensures
            hand@ == Seq::<CardHandle>::empty(),
    {
        Hand { cards: Vec::new() }
    }

    /// Appends `card` behind the cards already held.
    pub fn add(&mut self, card: CardHandle)
        ensures
            final(self)@ == old(self)@.push(card),
    {
        self.cards.push(card);
    }

    /// The number of cards in the hand.
    pub fn len(&self) -> (len: usize)
        ensures
            len == self@.len(),
    {
        self.cards.len()
    }

    /// Whether the hand holds no card.
    pub fn is_empty(&self) -> (empty: bool)
        ensures
            empty == (self@.len() == 0),
    {
        self.cards.len() == 0
    }

    /// The cards in the order in which they were drawn.
    pub fn cards(&self) -> (cards: &Vec<CardHandle>)
        ensures
            cards@ == self@,
    {
        &self.cards
    }

    /// Where the hand holds `card`: the first such position.
    pub fn position(&self, card: CardHandle) -> (at: Option<usize>)
        ensures
            match at {
                Some(i) => self@.index_of_first(card) == Some(i as int),
                None => self@.index_of_first(card) is None,
            },
    {
        let mut i: usize = 0;
        while i < self.cards.len()
            invariant
                i <= self.cards@.len(),
                forall|k: int| 0 <= k < i ==> self.cards@[k] != card,
            decreases self.cards@.len() - i,
        {
            if self.cards[i] == card {
                proof {
                    lemma_first_occurrence(self.cards@, card, i as int);
                }
                return Some(i);
            }
            i += 1;
        }
        proof {
            self.cards@.index_of_first_ensures(card);
        }
        None
    }

    /// Takes `card` out of the hand and says whether it was there. The other
    /// cards keep their order.
    pub fn remove(&mut self, card: CardHandle) -> (removed: bool)
        ensures
            removed == old(self)@.contains(card),
            final(self)@ == old(self)@.remove_value(card),
            !removed ==> final(self)@ == old(self)@,
    {
        proof {
            self.cards@.index_of_first_ensures(card);
        }
        match self.position(card) {
            Some(at) => {
                self.cards.remove(at);
                true
            },
            None => false,
        }
    }
}

/// A position before which `card` does not occur is its first occurrence.
proof fn lemma_first_occurrence(cards: Seq<CardHandle>, card: CardHandle, at: int)
    requires
        0 <= at < cards.len(),
        cards[at] == card,
        forall|k: int| 0 <= k < at ==> cards[k] != card,
    ensures
        cards.index_of_first(card) == Some(at),
{
    assert(cards.contains(card));
    cards.index_of_first_ensures(card);
}

} // verus!
