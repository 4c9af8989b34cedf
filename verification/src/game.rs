//! A running match and the actions that a front end may request of it.

use crate::card::{CardDefinition, CardHandle, Catalog};
use crate::combat::resolve;
use crate::deck::{Deck, DRAWS_PER_ROUND};
use crate::invariants::{
    lemma_draw_keeps_wf, lemma_end_round_keeps_wf, lemma_give_keeps_wf, lemma_opening_is_wf,
    lemma_place_keeps_wf, lemma_resolution_succeeds, lemma_round_damage_bounded,
};
use crate::round::{Phase, Round};
use crate::rules::{DrawOutcome, EndRoundOutcome, MatchView};
use crate::side::{Identity, PlaceOutcome, Side};
use vstd::prelude::*;

verus! {

/// The number of cards in the player's deck at the start of a match.
pub const STARTING_POPULATION: usize = 60;

/// A match: the catalog of its cards, the two sides, the round counter and
/// the phase. Every match that this module hands out is well formed (see
/// `MatchView::wf`), and every action keeps it so.
#[derive(Debug)]
pub struct MatchState {
    catalog: Catalog,
    player: Side,
    computer: Side,
    round: Round,
    phase: Phase,
}

impl View for MatchState {
    type V = MatchView;

    closed spec fn view(&self) -> MatchView {
        MatchView {
            cards: self.catalog@,
            player: self.player@,
            computer: self.computer@,
            round: self.round@,
            phase: self.phase,
        }
    }
}

/// What a front end needs to draw the match: a copy of the numbers and of
/// both boards.
#[derive(Debug, Clone, Copy, PartialEq, Eq)]
pub struct Snapshot {
    pub round: u64,
    pub phase: Phase,
    pub player_health: i128,
    pub computer_health: i128,
    pub player_board: [Option<CardHandle>; 3],
    pub computer_board: [Option<CardHandle>; 3],
}

impl MatchState {
    /// Every card of the match.
    pub fn catalog(&self) -> (catalog: &Catalog)
        ensures
            catalog@ == self@.cards,
    {
        &self.catalog
    }

    /// The player's side.
    pub fn player(&self) -> (side: &Side)
        ensures
            side@ == self@.player,
    {
        &self.player
    }

    /// The computer's side.
    pub fn computer(&self) -> (side: &Side)
        ensures
            side@ == self@.computer,
    {
        &self.computer
    }

    /// The side that is `identity`.
    pub fn side(&self, identity: Identity) -> (side: &Side)
        ensures
            side@ == self@.side(identity),
    {
        match identity {
            Identity::Player => &self.player,
            Identity::Computer => &self.computer,
        }
    }

    /// The number of rounds resolved so far.
    pub fn round(&self) -> (round: u64)
        ensures
            round == self@.round,
    {
        self.round.counter()
    }

    /// The phase that the match is in.
    pub fn phase(&self) -> (phase: Phase)
        ensures
            phase == self@.phase,
    {
        self.phase
    }
}

/// Starts a match whose player has a deck of `population` basic units and
/// may draw `draws` cards in the first round.
pub fn new_match_with(population: usize, draws: u32) -> (state: MatchState)
    ensures
        state@.wf(),
        state@.opens_with(population as nat, CardDefinition::basic_unit_view(), draws as nat),
{
    let mut catalog = Catalog::new();
    let mut cards: Vec<CardHandle> = Vec::new();
    while cards.len() < population
        invariant
            cards@.len() <= population,
            catalog@ == Seq::new(cards@.len(), |i: int| CardDefinition::basic_unit_view()),
            forall|i: int| 0 <= i < cards@.len() ==> (#[trigger] cards@[i])@ == i,
        decreases population - cards@.len(),
    {
        let card = catalog.create_card(CardDefinition::basic_unit());
        cards.push(card);
        assert(catalog@ =~= Seq::new(cards@.len(), |i: int| CardDefinition::basic_unit_view()));
    }
    let player = Side::new(Identity::Player, Some(Deck::new(draws, cards)));
    let computer = Side::new(Identity::Computer, None);
    proof {
        let state = MatchView {
            cards: catalog@,
            player: player@,
            computer: computer@,
            round: 0,
            phase: Phase::Draw,
        };
        lemma_opening_is_wf(
            state,
            population as nat,
            CardDefinition::basic_unit_view(),
            draws as nat,
        );
    }
    MatchState { catalog, player, computer, round: Round::new(), phase: Phase::Draw }
}

/// Starts a match: both sides at full health, the player with a deck of
/// `STARTING_POPULATION` basic units, empty hands and boards, no round
/// resolved yet, the draw phase.
pub fn new_match() -> (state: MatchState)
    ensures
        state@.wf(),
        state@.opens_with(
            STARTING_POPULATION as nat,
            CardDefinition::basic_unit_view(),
            DRAWS_PER_ROUND as nat,
        ),
{
    new_match_with(STARTING_POPULATION, DRAWS_PER_ROUND)
}

/// Draws the top card of the player's deck into the player's hand, if the
/// match is in the draw phase and the deck holds a card.
pub fn request_draw(state: &mut MatchState) -> (outcome: DrawOutcome)
    requires
        old(state)@.wf(),
    ensures
        final(state)@.wf(),
        outcome == old(state)@.draw_outcome(),
        final(state)@ == old(state)@.after_draw(),
{
    proof {
        lemma_draw_keeps_wf(state@);
    }
    if state.phase != Phase::Draw {
        return DrawOutcome::NotInDrawPhase;
    }
    match state.player.draw_card() {
        Some(card) => {
            if state.player.draws_remaining() == 0 {
                state.player.refill_draws();
                state.phase = Phase::Play;
            }
            DrawOutcome::Drawn(card)
        },
        None => DrawOutcome::DeckEmpty,
    }
}

/// Ends the round, if the match is in the play phase: counts the round,
/// resolves combat between the two boards, takes the damage off each side's
/// health and begins the draw phase.
pub fn request_end_round(state: &mut MatchState) -> (outcome: EndRoundOutcome)
    requires
        old(state)@.wf(),
        old(state)@.phase == Phase::Play ==> old(state)@.round < u64::MAX,
    ensures
        final(state)@.wf(),
        outcome == old(state)@.end_round_outcome(),
        final(state)@ == old(state)@.after_end_round(),
{
    proof {
        lemma_end_round_keeps_wf(state@);
        lemma_round_damage_bounded(state@);
        lemma_resolution_succeeds(state@, state@.round + 1);
    }
    if state.phase != Phase::Play {
        return EndRoundOutcome::NotInPlayPhase;
    }
    state.round.advance();
    match resolve(&state.round, state.player.board(), state.computer.board(), &state.catalog) {
        Ok((to_player, to_computer)) => {
            state.player.take_damage(to_player);
            state.computer.take_damage(to_computer);
            state.phase = Phase::Draw;
            EndRoundOutcome::Resolved(to_player, to_computer)
        },
        Err(_) => vstd::pervasive::unreached(),
    }
}

/// Moves `card` from the hand of side `identity` to slot `slot` of its
/// board, if the match is in the play phase, the slot exists and is empty,
/// and the hand holds the card.
pub fn request_place(state: &mut MatchState, identity: Identity, card: CardHandle, slot: usize)
    -> (outcome: PlaceOutcome)
    requires
        old(state)@.wf(),
    ensures
        final(state)@.wf(),
        outcome == old(state)@.place_outcome(identity, card, slot as int),
        final(state)@ == old(state)@.after_place(identity, card, slot as int),
{
    proof {
        lemma_place_keeps_wf(state@, identity, card, slot as int);
    }
    if state.phase != Phase::Play {
        return PlaceOutcome::NotInPlayPhase;
    }
    match identity {
        Identity::Player => state.player.place(card, slot),
        Identity::Computer => state.computer.place(card, slot),
    }
}

/// Creates a card of `definition` in the match's catalog and gives it to
/// side `identity`, which now holds it at the end of its hand.
pub fn give_card(state: &mut MatchState, identity: Identity, definition: CardDefinition)
    -> (card: CardHandle)
    requires
        old(state)@.wf(),
    ensures
        final(state)@.wf(),
        card@ == old(state)@.cards.len(),
        final(state)@ == old(state)@.after_give(identity, definition@, card),
{
    proof {
        definition.lemma_strength_bounded();
    }
    let card = state.catalog.create_card(definition);
    match identity {
        Identity::Player => state.player.receive(card),
        Identity::Computer => state.computer.receive(card),
    }
    proof {
        lemma_give_keeps_wf(old(state)@, identity, definition@, card);
    }
    card
}

/// A copy of what a front end shows of the match.
pub fn observe(state: &MatchState) -> (snapshot: Snapshot)
    ensures
        snapshot.round == state@.round,
        snapshot.phase == state@.phase,
        snapshot.player_health == state@.player.health,
        snapshot.computer_health == state@.computer.health,
        snapshot.player_board@ == state@.player.board,
        snapshot.computer_board@ == state@.computer.board,
{
    Snapshot {
        round: state.round.counter(),
        phase: state.phase,
        player_health: state.player.health(),
        computer_health: state.computer.health(),
        player_board: state.player.board().slots(),
        computer_board: state.computer.board().slots(),
    }
}

} // verus!
