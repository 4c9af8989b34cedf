//! The rules of a match, as a state machine over mathematical values.
//!
//! A `MatchView` is what a match is at one moment. Each action that a front
//! end may request has two functions here: what the action answers, and what
//! the match is afterwards. An action that is refused leaves the match as it
//! was.

use crate::board::BOARD_SLOTS;
use crate::card::{knows, CardDefinitionView, CardHandle};
use crate::combat::{damage_to, MAX_ROUND_DAMAGE};
use crate::round::Phase;
use crate::side::{Identity, PlaceOutcome, SideView, STARTING_HEALTH};
use vstd::prelude::*;

verus! {

/// How a request to draw a card ended.
#[derive(Debug, Clone, Copy, PartialEq, Eq, Structural)]
pub enum DrawOutcome {
    /// The card went from the top of the deck into the hand.
    Drawn(CardHandle),
    /// The deck holds no card. This ends drawing; it is no fault.
    DeckEmpty,
    /// Cards are drawn in the draw phase only.
    NotInDrawPhase,
}

/// How a request to end the round ended.
#[derive(Debug, Clone, Copy, PartialEq, Eq, Structural)]
pub enum EndRoundOutcome {
    /// The round was resolved. The fields are the damage that the player
    /// took and the damage that the computer took.
    Resolved(u64, u64),
    /// A round is ended in the play phase only.
    NotInPlayPhase,
}

/// One request to a match, with what it names.
pub enum Action {
    /// The player asks for a card.
    Draw,
    /// The player asks to end the round.
    EndRound,
    /// Side `identity` asks to place `card` on slot `slot` of its board.
    Place { identity: Identity, card: CardHandle, slot: int },
    /// A card of `definition` is created under the handle `card` and given
    /// to side `identity`.
    Give { identity: Identity, definition: CardDefinitionView, card: CardHandle },
}

/// The mathematical value of a match.
pub struct MatchView {
    /// Every card created so far; a handle is a position in here.
    pub cards: Seq<CardDefinitionView>,
    pub player: SideView,
    pub computer: SideView,
    /// The number of rounds resolved.
    pub round: nat,
    pub phase: Phase,
}

impl MatchView {
    /// The side that is `identity`.
    pub open spec fn side(self, identity: Identity) -> SideView {
        match identity {
            Identity::Player => self.player,
            Identity::Computer => self.computer,
        }
    }

    /// The match with `side` in the place of the side that is `identity`.
    pub open spec fn with_side(self, identity: Identity, side: SideView) -> MatchView {
        match identity {
            Identity::Player => MatchView { player: side, ..self },
            Identity::Computer => MatchView { computer: side, ..self },
        }
    }

    /// What a request to draw answers.
    pub open spec fn draw_outcome(self) -> DrawOutcome {
        if self.phase != Phase::Draw {
            DrawOutcome::NotInDrawPhase
        } else {
            match self.player.next_card() {
                Some(card) => DrawOutcome::Drawn(card),
                None => DrawOutcome::DeckEmpty,
            }
        }
    }

    /// The match after a request to draw. A card drawn moves to the player's
    /// hand and costs one draw; when that leaves no draw, the allowance is
    /// set back for the next round and the play phase begins.
    pub open spec fn after_draw(self) -> MatchView {
        if self.draw_outcome() is Drawn {
            let player = self.player.after_draw();
            if player.draws_remaining() == 0 {
                MatchView { player: player.with_draws_refilled(), phase: Phase::Play, ..self }
            } else {
                MatchView { player, ..self }
            }
        } else {
            self
        }
    }

    /// The damage that the player takes if the round is resolved now.
    pub open spec fn damage_to_player(self) -> nat {
        damage_to(self.cards, self.player.board, self.computer.board)
    }

    /// The damage that the computer takes if the round is resolved now.
    pub open spec fn damage_to_computer(self) -> nat {
        damage_to(self.cards, self.computer.board, self.player.board)
    }

    /// What a request to end the round answers.
    pub open spec fn end_round_outcome(self) -> EndRoundOutcome {
        if self.phase != Phase::Play {
            EndRoundOutcome::NotInPlayPhase
        } else {
            EndRoundOutcome::Resolved(
                self.damage_to_player() as u64,
                self.damage_to_computer() as u64,
            )
        }
    }

    /// The match after a request to end the round. In the play phase the
    /// round is counted, both sides take their damage and the draw phase
    /// begins.
    pub open spec fn after_end_round(self) -> MatchView {
        if self.phase != Phase::Play {
            self
        } else {
            MatchView {
                player: self.player.after_damage(self.damage_to_player()),
                computer: self.computer.after_damage(self.damage_to_computer()),
                round: self.round + 1,
                phase: Phase::Draw,
                ..self
            }
        }
    }

    /// What a request of side `identity` to place `card` on slot `slot`
    /// answers.
    pub open spec fn place_outcome(self, identity: Identity, card: CardHandle, slot: int)
        -> PlaceOutcome {
        if self.phase != Phase::Play {
            PlaceOutcome::NotInPlayPhase
        } else {
            self.side(identity).place_outcome(card, slot)
        }
    }

    /// The match after a request of side `identity` to place `card` on slot
    /// `slot`.
    pub open spec fn after_place(self, identity: Identity, card: CardHandle, slot: int)
        -> MatchView {
        if self.place_outcome(identity, card, slot) is Placed {
            self.with_side(identity, self.side(identity).after_place(card, slot))
        } else {
            self
        }
    }

    /// The match after a card of `definition` was created under the handle
    /// `card` and given to side `identity`: the catalog has one card more,
    /// and the side holds it at the end of its hand.
    pub open spec fn after_give(
        self,
        identity: Identity,
        definition: CardDefinitionView,
        card: CardHandle,
    ) -> MatchView {
        MatchView { cards: self.cards.push(definition), ..self }.with_side(
            identity,
            self.side(identity).with_card(card),
        )
    }

    /// In how many containers of the match `card` lies.
    pub open spec fn places_of(self, card: CardHandle) -> nat {
        self.player.places_of(card) + self.computer.places_of(card)
    }

    /// The player is the player and has a deck; the computer is the computer
    /// and has none.
    pub open spec fn roles_hold(self) -> bool {
        &&& self.player.identity == Identity::Player
        &&& self.computer.identity == Identity::Computer
        &&& self.player.deck is Some
        &&& self.computer.deck is None
    }

    /// Both boards have their `BOARD_SLOTS` slots.
    pub open spec fn boards_whole(self) -> bool {
        &&& self.player.board.len() == BOARD_SLOTS
        &&& self.computer.board.len() == BOARD_SLOTS
    }

    /// Every strength is one that a card can have.
    pub open spec fn strengths_fit(self) -> bool {
        forall|i: int| 0 <= i < self.cards.len() ==> (#[trigger] self.cards[i]).strength <= u32::MAX
    }

    /// Every card that lies somewhere is a card of the catalog.
    pub open spec fn cards_known(self) -> bool {
        forall|card: CardHandle| #[trigger] self.places_of(card) > 0 ==> knows(self.cards, card)
    }

    /// No card lies in two places at once: not twice in one container, and
    /// not in two containers.
    pub open spec fn cards_unique(self) -> bool {
        &&& self.player.cards_distinct()
        &&& self.computer.cards_distinct()
        &&& forall|card: CardHandle| #[trigger] self.places_of(card) <= 1
    }

    /// Health never exceeds what a side starts with, and no round takes
    /// more than `MAX_ROUND_DAMAGE` off it.
    pub open spec fn health_bounded(self) -> bool {
        &&& STARTING_HEALTH - self.round * MAX_ROUND_DAMAGE <= self.player.health <= STARTING_HEALTH
        &&& STARTING_HEALTH - self.round * MAX_ROUND_DAMAGE <= self.computer.health
            <= STARTING_HEALTH
    }

    /// What holds of every match at every moment.
    pub open spec fn wf(self) -> bool {
        &&& self.roles_hold()
        &&& self.boards_whole()
        &&& self.strengths_fit()
        &&& self.cards_known()
        &&& self.cards_unique()
        &&& self.health_bounded()
    }

    /// Whether this is a match at its start, the player's deck holding the
    /// first `population` cards of the catalog, each of `definition`, and
    /// `draws` draws allowed in the first round.
    pub open spec fn opens_with(self, population: nat, definition: CardDefinitionView, draws: nat)
        -> bool {
        &&& self.cards == Seq::new(population, |i: int| definition)
        &&& self.player.identity == Identity::Player
        &&& self.computer.identity == Identity::Computer
        &&& self.player.health == STARTING_HEALTH
        &&& self.computer.health == STARTING_HEALTH
        &&& self.player.deck is Some
        &&& self.player.draws_remaining() == draws
        &&& self.player.deck_cards().len() == population
        &&& forall|i: int| 0 <= i < population ==> (#[trigger] self.player.deck_cards()[i])@ == i
        &&& self.computer.deck is None
        &&& self.player.hand == Seq::<CardHandle>::empty()
        &&& self.computer.hand == Seq::<CardHandle>::empty()
        &&& self.player.board == Seq::new(BOARD_SLOTS as nat, |i: int| None::<CardHandle>)
        &&& self.computer.board == Seq::new(BOARD_SLOTS as nat, |i: int| None::<CardHandle>)
        &&& self.round == 0
        &&& self.phase == Phase::Draw
    }

    /// The match after `action`.
    pub open spec fn step(self, action: Action) -> MatchView {
        match action {
            Action::Draw => self.after_draw(),
            Action::EndRound => self.after_end_round(),
            Action::Place { identity, card, slot } => self.after_place(identity, card, slot),
            Action::Give { identity, definition, card } => self.after_give(
                identity,
                definition,
                card,
            ),
        }
    }

    /// Whether `action` can be asked of this match. Every request can; a
    /// card can be created only under the next free handle and with a
    /// strength that a definition can hold.
    pub open spec fn accepts(self, action: Action) -> bool {
        match action {
            Action::Give { identity, definition, card } => {
                &&& card@ == self.cards.len()
                &&& definition.strength <= u32::MAX
            },
            _ => true,
        }
    }

    /// The match after `actions`, the first of them first.
    pub open spec fn run(self, actions: Seq<Action>) -> MatchView
        decreases actions.len(),
    {
        if actions.len() == 0 {
            self
        } else {
            self.run(actions.drop_last()).step(actions.last())
        }
    }

    /// Whether each of `actions` can be asked of the match that the actions
    /// before it have made.
    pub open spec fn accepts_all(self, actions: Seq<Action>) -> bool
        decreases actions.len(),
    {
        if actions.len() == 0 {
            true
        } else {
            &&& self.accepts_all(actions.drop_last())
            &&& self.run(actions.drop_last()).accepts(actions.last())
        }
    }

    /// How many of `actions` ended a round: the requests to end the round
    /// that came in the play phase.
    pub open spec fn rounds_ended(self, actions: Seq<Action>) -> nat
        decreases actions.len(),
    {
        if actions.len() == 0 {
            0
        } else {
            let before = self.run(actions.drop_last());
            let ended: nat = if actions.last() is EndRound && before.phase == Phase::Play {
                1
            } else {
                0
            };
            self.rounds_ended(actions.drop_last()) + ended
        }
    }
}

} // verus!
