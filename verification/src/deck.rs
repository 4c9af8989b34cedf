//! The pile of cards that a side has not drawn yet.

use crate::card::CardHandle;
use vstd::prelude::*;

verus! {

/// How many draws a side gets in each round.
pub const DRAWS_PER_ROUND: u32 = 1;

/// An ordered pile of undrawn cards and the draws left in this round. The
/// pile is a stack: the card added last is drawn first.
#[derive(Debug)]
pub struct Deck {
    draws_remaining: u32,
    cards: Vec<CardHandle>,
}

/// The mathematical value of a `Deck`. The last card of `cards` is on top.
pub struct DeckView {
    pub draws_remaining: nat,
    pub cards: Seq<CardHandle>,
}

impl DeckView {
    /// The pile after its top card was taken; an empty pile stays as it is.
    pub open spec fn without_top(self) -> DeckView {
        if self.cards.len() == 0 {
            self
        } else {
            DeckView { cards: self.cards.drop_last(), ..self }
        }
    }

    /// The card on top of the pile, if there is one.
    pub open spec fn top(self) -> Option<CardHandle> {
        if self.cards.len() == 0 {
            None
        } else {
            Some(self.cards.last())
        }
    }

    /// One draw of the round's allowance used up; at 0 none is left to use.
    pub open spec fn spent(self) -> DeckView {
        if self.draws_remaining == 0 {
            self
        } else {
            DeckView { draws_remaining: (self.draws_remaining - 1) as nat, ..self }
        }
    }

    /// The allowance set back to what a round starts with.
    pub open spec fn refilled(self) -> DeckView {
        DeckView { draws_remaining: DRAWS_PER_ROUND as nat, ..self }
    }
}

impl View for Deck {
    type V = DeckView;

    closed spec fn view(&self) -> DeckView {
        DeckView { draws_remaining: self.draws_remaining as nat, cards: self.cards@ }
    }
}

impl Deck {
    /// A deck of `cards`, the last of them on top, with `draws_remaining`
    /// draws allowed before the round moves on.
    pub fn new(draws_remaining: u32, cards: Vec<CardHandle>) -> (deck: Deck)
        ensures
            deck@ == (DeckView { draws_remaining: draws_remaining as nat, cards: cards@ }),
    {
        Deck { draws_remaining, cards }
    }

    /// Takes the top card. An empty deck gives `None` and stays unchanged.
    /// The allowance is not touched: whoever drives the draw phase spends it.
    pub fn draw(&mut self) -> (card: Option<CardHandle>)
        ensures
            card == old(self)@.top(),
            final(self)@ == old(self)@.without_top(),
    {
        let card = self.cards.pop();
        proof {
            if old(self)@.cards.len() > 0 {
                assert(self.cards@ =~= old(self)@.cards.drop_last());
            }
        }
        card
    }

    /// Uses up one draw of this round's allowance.
    pub fn spend_draw(&mut self)
        ensures
            final(self)@ == old(self)@.spent(),
    {
        if self.draws_remaining > 0 {
            self.draws_remaining = self.draws_remaining - 1;
        }
    }

    /// Sets the allowance back to `DRAWS_PER_ROUND` for the next round.
    pub fn refill_draws(&mut self)
        ensures
            final(self)@ == old(self)@.refilled(),
    {
        self.draws_remaining = DRAWS_PER_ROUND;
    }

    /// The draws left in this round.
    pub fn draws_remaining(&self) -> (draws: u32)
        ensures
            draws == self@.draws_remaining,
    {
        self.draws_remaining
    }

    /// The number of cards left in the pile.
    pub fn len(&self) -> (len: usize)
        ensures
            len == self@.cards.len(),
    {
        self.cards.len()
    }

    /// Whether no card is left in the pile.
    pub fn is_empty(&self) -> (empty: bool)
        ensures
            empty == (self@.cards.len() == 0),
    {
        self.cards.len() == 0
    }

    /// The pile from bottom to top.
    pub fn cards(&self) -> (cards: &Vec<CardHandle>)
        ensures
            cards@ == self@.cards,
    {
        &self.cards
    }
}

} // verus!
