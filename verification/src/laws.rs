//! What holds of every match, proved from the rules.

use crate::board::BOARD_SLOTS;
use crate::card::{knows, CardDefinitionView, CardHandle, UnknownHandle};
use crate::combat::{
    column_damage, damage_in_columns, damage_to, resolution, slot_strength, MAX_ROUND_DAMAGE,
};
use crate::deck::DRAWS_PER_ROUND;
use crate::invariants::{
    lemma_draw_keeps_wf, lemma_end_round_keeps_wf, lemma_give_keeps_wf, lemma_opening_is_wf,
    lemma_place_keeps_wf, lemma_resolution_succeeds, lemma_round_damage_bounded,
    lemma_side_draw_keeps_places, lemma_side_place_keeps_places, lemma_side_receive_adds_place,
};
use crate::round::Phase;
use crate::rules::{Action, DrawOutcome, EndRoundOutcome, MatchView};
use crate::side::STARTING_HEALTH;
use vstd::prelude::*;

verus! {

/// A match starts with no round resolved.
pub proof fn law_round_starts_at_zero(
    state: MatchView,
    population: nat,
    definition: CardDefinitionView,
    draws: nat,
)
    requires
        state.opens_with(population, definition, draws),
    ensures
        state.round == 0,
{
}

/// The round counter moves only when the round is ended in the play phase,
/// and then by exactly one.
pub proof fn law_round_moves_by_one(state: MatchView, action: Action)
    ensures
        action is EndRound && state.phase == Phase::Play ==> state.step(action).round
            == state.round + 1,
        !(action is EndRound && state.phase == Phase::Play) ==> state.step(action).round
            == state.round,
{
}

/// After any sequence of actions the round counter has grown by the number
/// of rounds that were ended in the play phase.
pub proof fn law_round_counts_rounds_ended(state: MatchView, actions: Seq<Action>)
    ensures
        state.run(actions).round == state.round + state.rounds_ended(actions),
    decreases actions.len(),
{
    if actions.len() > 0 {
        law_round_counts_rounds_ended(state, actions.drop_last());
        law_round_moves_by_one(state.run(actions.drop_last()), actions.last());
    }
}

/// Resolving round 0 deals no damage to either side, whatever the boards
/// hold.
pub proof fn law_setup_round_deals_no_damage(
    cards: Seq<CardDefinitionView>,
    a: Seq<Option<CardHandle>>,
    b: Seq<Option<CardHandle>>,
)
    ensures
        resolution(cards, 0, a, b) == Ok::<(nat, nat), UnknownHandle>((0, 0)),
{
}

/// The damage to a side is the sum, over the three columns, of the strength
/// of the card that faces its empty slot. Where every column has exactly one
/// card, an empty slot always faces a card, and every card on the two boards
/// deals its strength to exactly one side: the damage to both sides together
/// is the strength of all cards together.
pub proof fn law_unopposed_cards_deal_their_strength(
    cards: Seq<CardDefinitionView>,
    a: Seq<Option<CardHandle>>,
    b: Seq<Option<CardHandle>>,
)
    requires
        a.len() == BOARD_SLOTS,
        b.len() == BOARD_SLOTS,
        forall|column: int|
            0 <= column < BOARD_SLOTS ==> (a[column] is Some) != (b[column] is Some),
    ensures
        damage_to(cards, a, b)
            == column_damage(cards, a[0], b[0]) + column_damage(cards, a[1], b[1])
            + column_damage(cards, a[2], b[2]),
        damage_to(cards, b, a)
            == column_damage(cards, b[0], a[0]) + column_damage(cards, b[1], a[1])
            + column_damage(cards, b[2], a[2]),
        forall|column: int|
            0 <= column < BOARD_SLOTS ==> #[trigger] column_damage(cards, a[column], b[column])
                == (if a[column] is None { slot_strength(cards, b[column]) } else { 0 }),
        forall|column: int|
            0 <= column < BOARD_SLOTS ==> #[trigger] column_damage(cards, b[column], a[column])
                == (if b[column] is None { slot_strength(cards, a[column]) } else { 0 }),
        damage_to(cards, a, b) + damage_to(cards, b, a)
            == slot_strength(cards, a[0]) + slot_strength(cards, a[1]) + slot_strength(cards, a[2])
            + slot_strength(cards, b[0]) + slot_strength(cards, b[1]) + slot_strength(cards, b[2]),
{
    reveal_with_fuel(damage_in_columns, 4);
    assert((a[0] is Some) != (b[0] is Some));
    assert((a[1] is Some) != (b[1] is Some));
    assert((a[2] is Some) != (b[2] is Some));
}

/// Where every column has a card on both sides or on neither, no side takes
/// damage.
pub proof fn law_matched_columns_deal_no_damage(
    cards: Seq<CardDefinitionView>,
    a: Seq<Option<CardHandle>>,
    b: Seq<Option<CardHandle>>,
)
    requires
        a.len() == BOARD_SLOTS,
        b.len() == BOARD_SLOTS,
        forall|column: int|
            0 <= column < BOARD_SLOTS ==> (a[column] is Some) == (b[column] is Some),
    ensures
        damage_to(cards, a, b) == 0,
        damage_to(cards, b, a) == 0,
{
    reveal_with_fuel(damage_in_columns, 4);
    assert((a[0] is Some) == (b[0] is Some));
    assert((a[1] is Some) == (b[1] is Some));
    assert((a[2] is Some) == (b[2] is Some));
}

/// A request to draw from an empty deck changes nothing, and in the draw
/// phase it is answered with `DeckEmpty`.
pub proof fn law_empty_deck_draw_changes_nothing(state: MatchView)
    requires
        state.player.deck_cards().len() == 0,
    ensures
        state.after_draw() == state,
        state.phase == Phase::Draw ==> state.draw_outcome() == DrawOutcome::DeckEmpty,
        state.phase != Phase::Draw ==> state.draw_outcome() == DrawOutcome::NotInDrawPhase,
{
}

/// The draw that uses up the round's last draw begins the play phase and
/// sets the allowance back to `DRAWS_PER_ROUND`. A draw that leaves some
/// keeps the draw phase.
pub proof fn law_last_draw_begins_play(state: MatchView)
    requires
        state.draw_outcome() is Drawn,
    ensures
        state.player.draws_remaining() <= 1 ==> {
            &&& state.after_draw().phase == Phase::Play
            &&& state.after_draw().player.draws_remaining() == DRAWS_PER_ROUND
        },
        state.player.draws_remaining() > 1 ==> {
            &&& state.after_draw().phase == Phase::Draw
            &&& state.after_draw().player.draws_remaining() == state.player.draws_remaining() - 1
        },
{
}

/// A request to end the round in the draw phase is refused and changes
/// nothing: not the round, not the health of a side, not a board.
pub proof fn law_end_round_refused_in_draw_phase(state: MatchView)
    requires
        state.phase == Phase::Draw,
    ensures
        state.end_round_outcome() == EndRoundOutcome::NotInPlayPhase,
        state.after_end_round() == state,
{
}

/// A round is counted before it is resolved. So a match never resolves
/// round 0, and ending the round deals what resolving the round of the new
/// count gives for the two boards.
pub proof fn law_round_is_counted_before_it_is_resolved(state: MatchView)
    requires
        state.wf(),
        state.phase == Phase::Play,
    ensures
        state.after_end_round().round > 0,
        resolution(
            state.cards,
            state.after_end_round().round,
            state.player.board,
            state.computer.board,
        ) == Ok::<(nat, nat), UnknownHandle>(
            (state.damage_to_player(), state.damage_to_computer()),
        ),
        state.damage_to_player() <= MAX_ROUND_DAMAGE,
        state.damage_to_computer() <= MAX_ROUND_DAMAGE,
        state.end_round_outcome() == EndRoundOutcome::Resolved(
            state.damage_to_player() as u64,
            state.damage_to_computer() as u64,
        ),
{
    lemma_resolution_succeeds(state, state.round + 1);
    lemma_round_damage_bounded(state);
}

/// A request to draw in the play phase is refused and changes nothing.
pub proof fn law_draw_refused_in_play_phase(state: MatchView)
    requires
        state.phase == Phase::Play,
    ensures
        state.draw_outcome() == DrawOutcome::NotInDrawPhase,
        state.after_draw() == state,
{
}

/// Every action keeps a match well formed.
pub proof fn law_step_keeps_wf(state: MatchView, action: Action)
    requires
        state.wf(),
        state.accepts(action),
    ensures
        state.step(action).wf(),
{
    match action {
        Action::Draw => lemma_draw_keeps_wf(state),
        Action::EndRound => lemma_end_round_keeps_wf(state),
        Action::Place { identity, card, slot } => lemma_place_keeps_wf(state, identity, card, slot),
        Action::Give { identity, definition, card } => lemma_give_keeps_wf(
            state,
            identity,
            definition,
            card,
        ),
    }
}

/// Whatever is asked of a well-formed match, it stays well formed. In
/// particular no card ever lies in two places, and every card that lies
/// somewhere is a card of the catalog.
pub proof fn law_run_keeps_wf(state: MatchView, actions: Seq<Action>)
    requires
        state.wf(),
        state.accepts_all(actions),
    ensures
        state.run(actions).wf(),
        forall|card: CardHandle| #[trigger] state.run(actions).places_of(card) <= 1,
    decreases actions.len(),
{
    if actions.len() > 0 {
        law_run_keeps_wf(state, actions.drop_last());
        law_step_keeps_wf(state.run(actions.drop_last()), actions.last());
    }
}

/// Every match is well formed at every moment, and its round counter is the
/// number of rounds that were ended in the play phase since it started.
pub proof fn law_every_match_is_wf(
    opening: MatchView,
    population: nat,
    definition: CardDefinitionView,
    draws: nat,
    actions: Seq<Action>,
)
    requires
        opening.opens_with(population, definition, draws),
        definition.strength <= u32::MAX,
        opening.accepts_all(actions),
    ensures
        opening.run(actions).wf(),
        opening.run(actions).round == opening.rounds_ended(actions),
{
    lemma_opening_is_wf(opening, population, definition, draws);
    law_run_keeps_wf(opening, actions);
    law_round_counts_rounds_ended(opening, actions);
}

/// Cards only move: an action leaves every card in as many places as it lay
/// in before, and the card that is created and given lies in one place
/// afterwards. No card is lost and none is doubled.
pub proof fn law_cards_only_move(state: MatchView, action: Action, card: CardHandle)
    requires
        state.wf(),
        state.accepts(action),
    ensures
        action matches Action::Give { card: given, .. } && given == card ==> {
            &&& state.places_of(card) == 0
            &&& state.step(action).places_of(card) == 1
        },
        !(action matches Action::Give { card: given, .. } && given == card) ==> state.step(
            action,
        ).places_of(card) == state.places_of(card),
{
    assert(state.places_of(card) <= 1);
    assert forall|other: CardHandle| #[trigger] state.player.places_of(other) <= 1 by {
        assert(state.places_of(other) <= 1);
    }
    assert forall|other: CardHandle| #[trigger] state.computer.places_of(other) <= 1 by {
        assert(state.places_of(other) <= 1);
    }
    match action {
        Action::Draw => {
            lemma_side_draw_keeps_places(state.player);
        },
        Action::EndRound => {},
        Action::Place { identity, card: placed, slot } => {
            lemma_side_place_keeps_places(state.side(identity), placed, slot);
        },
        Action::Give { identity, definition, card: given } => {
            if state.places_of(given) > 0 {
                assert(knows(state.cards, given));
            }
            lemma_side_receive_adds_place(state.side(identity), given);
        },
    }
}

/// Only the resolution of a round changes the health of a side.
pub proof fn law_health_changes_only_on_resolution(state: MatchView, action: Action)
    requires
        !(action is EndRound && state.phase == Phase::Play),
    ensures
        state.step(action).player.health == state.player.health,
        state.step(action).computer.health == state.computer.health,
{
}

/// Health has no floor, and a resolved round takes exactly the round's
/// damage off each side.
pub proof fn law_resolution_takes_damage_off_health(state: MatchView)
    requires
        state.phase == Phase::Play,
    ensures
        state.after_end_round().player.health == state.player.health - state.damage_to_player(),
        state.after_end_round().computer.health == state.computer.health
            - state.damage_to_computer(),
        state.after_end_round().phase == Phase::Draw,
{
}

/// A deck is never refilled: after any action the player's deck is what it
/// was or what it was without its top card.
pub proof fn law_deck_only_shrinks(state: MatchView, action: Action)
    ensures
        state.step(action).player.deck_cards() == state.player.deck_cards() || (
        state.player.deck_cards().len() > 0 && state.step(action).player.deck_cards()
            == state.player.deck_cards().drop_last()),
        state.step(action).computer.deck_cards() == state.computer.deck_cards(),
{
}

/// In the draw phase a hand only grows at its end.
pub proof fn law_hand_only_grows_in_draw_phase(state: MatchView, action: Action)
    requires
        state.phase == Phase::Draw,
    ensures
        state.player.hand.is_prefix_of(state.step(action).player.hand),
        state.computer.hand.is_prefix_of(state.step(action).computer.hand),
{
}

/// A card on a board stays where it is.
pub proof fn law_board_cards_stay(state: MatchView, action: Action, column: int)
    requires
        state.boards_whole(),
        0 <= column < BOARD_SLOTS,
    ensures
        state.player.board[column] is Some ==> state.step(action).player.board[column]
            == state.player.board[column],
        state.computer.board[column] is Some ==> state.step(action).computer.board[column]
            == state.computer.board[column],
        state.step(action).boards_whole(),
{
}

/// A match starts with both sides at `STARTING_HEALTH`, and the health of a
/// side never rises above it.
pub proof fn law_health_never_rises(state: MatchView, actions: Seq<Action>)
    requires
        state.wf(),
        state.accepts_all(actions),
    ensures
        state.run(actions).player.health <= STARTING_HEALTH,
        state.run(actions).computer.health <= STARTING_HEALTH,
{
    law_run_keeps_wf(state, actions);
}

} // verus!
