//! One of the two combatants: its health, deck, hand and board.

use crate::board::{holds, slots_distinct, Board, BOARD_SLOTS};
use crate::card::CardHandle;
use crate::deck::{Deck, DeckView};
use crate::hand::Hand;
use vstd::prelude::*;

verus! {

/// The health that each side starts a match with.
pub const STARTING_HEALTH: i128 = 10;

/// Which of the two combatants a side is.
#[derive(Debug, Clone, Copy, PartialEq, Eq, Hash, Structural)]
pub enum Identity {
    Player,
    Computer,
}

/// How an attempt to place a card on a board ended.
#[derive(Debug, Clone, Copy, PartialEq, Eq, Structural)]
pub enum PlaceOutcome {
    /// The card left the hand and now stands in the slot.
    Placed,
    /// Cards are placed in the play phase only.
    NotInPlayPhase,
    /// The board has no slot of that number.
    NoSuchSlot,
    /// The slot already holds a card, and a card on the board stays there.
    SlotOccupied,
    /// The side does not hold the card in its hand.
    CardNotInHand,
}

/// A combatant. Its health has no floor: damage may take it below zero.
#[derive(Debug)]
pub struct Side {
    identity: Identity,
    health: i128,
    deck: Option<Deck>,
    hand: Hand,
    board: Board,
}

/// The mathematical value of a `Side`.
pub struct SideView {
    pub identity: Identity,
    pub health: int,
    pub deck: Option<DeckView>,
    pub hand: Seq<CardHandle>,
    pub board: Seq<Option<CardHandle>>,
}

impl SideView {
    /// The card that a draw would give: the top of the deck, if the side has
    /// a deck and it is not empty.
    pub open spec fn next_card(self) -> Option<CardHandle> {
        match self.deck {
            Some(deck) => deck.top(),
            None => None,
        }
    }

    /// The side after one draw: the top card has moved from the deck to the
    /// end of the hand and one draw of the allowance is spent. Where there is
    /// no card to draw the side does not change.
    pub open spec fn after_draw(self) -> SideView {
        match self.next_card() {
            Some(card) => SideView {
                deck: Some(self.deck->Some_0.without_top().spent()),
                hand: self.hand.push(card),
                ..self
            },
            None => self,
        }
    }

    /// The draws left in this round; a side without a deck has none.
    pub open spec fn draws_remaining(self) -> nat {
        match self.deck {
            Some(deck) => deck.draws_remaining,
            None => 0,
        }
    }

    /// The side with its allowance of draws set back for the next round.
    pub open spec fn with_draws_refilled(self) -> SideView {
        match self.deck {
            Some(deck) => SideView { deck: Some(deck.refilled()), ..self },
            None => self,
        }
    }

    /// The side with `card` appended to its hand.
    pub open spec fn with_card(self, card: CardHandle) -> SideView {
        SideView { hand: self.hand.push(card), ..self }
    }

    /// How placing `card` on slot `slot` ends for this side.
    pub open spec fn place_outcome(self, card: CardHandle, slot: int) -> PlaceOutcome {
        if !(0 <= slot < BOARD_SLOTS) {
            PlaceOutcome::NoSuchSlot
        } else if self.board[slot] is Some {
            PlaceOutcome::SlotOccupied
        } else if !self.hand.contains(card) {
            PlaceOutcome::CardNotInHand
        } else {
            PlaceOutcome::Placed
        }
    }

    /// The side after an attempt to place `card` on slot `slot`: where the
    /// attempt succeeds the card has moved from the hand to the slot, else
    /// nothing has changed.
    pub open spec fn after_place(self, card: CardHandle, slot: int) -> SideView {
        if self.place_outcome(card, slot) is Placed {
            SideView {
                hand: self.hand.remove_value(card),
                board: self.board.update(slot, Some(card)),
                ..self
            }
        } else {
            self
        }
    }

    /// The side after it took `amount` damage.
    pub open spec fn after_damage(self, amount: nat) -> SideView {
        SideView { health: self.health - amount, ..self }
    }

    /// The cards of the deck, bottom first; none for a side without a deck.
    pub open spec fn deck_cards(self) -> Seq<CardHandle> {
        match self.deck {
            Some(deck) => deck.cards,
            None => Seq::empty(),
        }
    }

    /// In how many of its three containers (deck, hand, board) the side
    /// holds `card`.
    pub open spec fn places_of(self, card: CardHandle) -> nat {
        let in_deck: nat = if self.deck_cards().contains(card) { 1 } else { 0 };
        let in_hand: nat = if self.hand.contains(card) { 1 } else { 0 };
        let on_board: nat = if holds(self.board, card) { 1 } else { 0 };
        in_deck + in_hand + on_board
    }

    /// No container of the side holds a card twice.
    pub open spec fn cards_distinct(self) -> bool {
        &&& self.deck_cards().no_duplicates()
        &&& self.hand.no_duplicates()
        &&& slots_distinct(self.board)
    }
}

/// The mathematical value of a deck that may be absent.
pub open spec fn deck_view(deck: Option<Deck>) -> Option<DeckView> {
    match deck {
        Some(deck) => Some(deck@),
        None => None,
    }
}

impl View for Side {
    type V = SideView;

    closed spec fn view(&self) -> SideView {
        SideView {
            identity: self.identity,
            health: self.health as int,
            deck: deck_view(self.deck),
            hand: self.hand@,
            board: self.board@,
        }
    }
}

impl Side {
    /// A side at the start of a match: full health, nothing in hand, nothing
    /// on the board.
    pub fn new(identity: Identity, deck: Option<Deck>) -> (side: Side)
        ensures
            side@ == (SideView {
                identity,
                health: STARTING_HEALTH as int,
                deck: deck_view(deck),
                hand: Seq::<CardHandle>::empty(),
                board: Seq::new(BOARD_SLOTS as nat, |i: int| None::<CardHandle>),
            }),
    {
        Side { identity, health: STARTING_HEALTH, deck, hand: Hand::new(), board: Board::new() }
    }

    /// Which of the two combatants this is.
    pub fn identity(&self) -> (identity: Identity)
        ensures
            identity == self@.identity,
    {
        self.identity
    }

    /// The health of the side; it may be negative.
    pub fn health(&self) -> (health: i128)
        ensures
            health == self@.health,
    {
        self.health
    }

    /// The deck of the side, if it has one.
    pub fn deck(&self) -> (deck: Option<&Deck>)
        ensures
            match deck {
                Some(deck) => self@.deck == Some(deck@),
                None => self@.deck is None,
            },
    {
        self.deck.as_ref()
    }

    /// The cards drawn and not yet placed.
    pub fn hand(&self) -> (hand: &Hand)
        ensures
            hand@ == self@.hand,
    {
        &self.hand
    }

    /// The board of the side.
    pub fn board(&self) -> (board: &Board)
        ensures
            board@ == self@.board,
    {
        &self.board
    }

    /// The draws left in this round; none for a side without a deck.
    pub fn draws_remaining(&self) -> (draws: u32)
        ensures
            draws == self@.draws_remaining(),
    {
        match &self.deck {
            Some(deck) => deck.draws_remaining(),
            None => 0,
        }
    }

    /// Draws the top card of the deck into the hand and spends one draw of
    /// the allowance, all or nothing: with no card to draw nothing changes.
    pub fn draw_card(&mut self) -> (card: Option<CardHandle>)
        ensures
            card == old(self)@.next_card(),
            final(self)@ == old(self)@.after_draw(),
    {
        match &mut self.deck {
            Some(deck) => {
                match deck.draw() {
                    Some(card) => {
                        deck.spend_draw();
                        self.hand.add(card);
                        Some(card)
                    },
                    None => None,
                }
            },
            None => None,
        }
    }

    /// Sets the allowance of draws back for the next round.
    pub fn refill_draws(&mut self)
        ensures
            final(self)@ == old(self)@.with_draws_refilled(),
    {
        match &mut self.deck {
            Some(deck) => {
                deck.refill_draws();
            },
            None => {},
        }
    }

    /// Appends `card` to the hand.
    pub fn receive(&mut self, card: CardHandle)
        ensures
            final(self)@ == old(self)@.with_card(card),
    {
        self.hand.add(card);
    }

    /// Moves `card` from the hand to slot `slot` of the board, if the slot
    /// exists and is empty and the hand holds the card.
    pub fn place(&mut self, card: CardHandle, slot: usize) -> (outcome: PlaceOutcome)
        ensures
            outcome == old(self)@.place_outcome(card, slot as int),
            final(self)@ == old(self)@.after_place(card, slot as int),
    {
        if slot >= BOARD_SLOTS {
            return PlaceOutcome::NoSuchSlot;
        }
        if self.board.slot(slot).is_some() {
            return PlaceOutcome::SlotOccupied;
        }
        if !self.hand.remove(card) {
            return PlaceOutcome::CardNotInHand;
        }
        self.board.assign(slot, Some(card));
        PlaceOutcome::Placed
    }

    /// Takes `amount` off the health.
    pub fn take_damage(&mut self, amount: u64)
        requires
            old(self)@.health - amount >= i128::MIN,
        ensures
            final(self)@ == old(self)@.after_damage(amount as nat),
    {
        self.health = self.health - amount as i128;
    }
}

} // verus!
