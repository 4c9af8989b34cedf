//! Proofs that the rules keep a match well formed.

use crate::board::{holds, slots_distinct, BOARD_SLOTS};
use crate::card::{knows, CardDefinitionView, CardHandle};
use crate::card::UnknownHandle;
use crate::combat::{
    first_unknown_striker, lemma_damage_bounded, resolution, striker, MAX_ROUND_DAMAGE,
};
use crate::round::Phase;
use crate::rules::MatchView;
use crate::side::{Identity, SideView};
use vstd::prelude::*;

verus! {

/// What a sequence without duplicates holds after its last item is gone.
proof fn lemma_drop_last_contains(cards: Seq<CardHandle>, card: CardHandle)
    requires
        cards.no_duplicates(),
        cards.len() > 0,
    ensures
        cards.drop_last().no_duplicates(),
        cards.drop_last().contains(card) <==> cards.contains(card) && card != cards.last(),
{
    let rest = cards.drop_last();
    if rest.contains(card) {
        let i = choose|i: int| 0 <= i < rest.len() && rest[i] == card;
        assert(cards[i] == card);
    }
    if cards.contains(card) && card != cards.last() {
        let i = choose|i: int| 0 <= i < cards.len() && cards[i] == card;
        assert(rest[i] == card);
    }
}

/// What a sequence holds after one more item is appended.
proof fn lemma_push_contains(cards: Seq<CardHandle>, added: CardHandle, card: CardHandle)
    ensures
        cards.push(added).contains(card) <==> cards.contains(card) || card == added,
        cards.no_duplicates() && !cards.contains(added) ==> cards.push(added).no_duplicates(),
{
    vstd::seq_lib::lemma_seq_contains_after_push(cards, added, card);
    if cards.no_duplicates() && !cards.contains(added) {
        let more = cards.push(added);
        assert forall|i: int, j: int|
            0 <= i < more.len() && 0 <= j < more.len() && i != j implies more[i] != more[j] by {
            if i < cards.len() {
                assert(cards[i] == more[i]);
            }
            if j < cards.len() {
                assert(cards[j] == more[j]);
            }
        }
    }
}

/// What a sequence without duplicates holds after one of its items is
/// taken out.
proof fn lemma_remove_value_contains(cards: Seq<CardHandle>, taken: CardHandle, card: CardHandle)
    requires
        cards.no_duplicates(),
        cards.contains(taken),
    ensures
        cards.remove_value(taken).no_duplicates(),
        cards.remove_value(taken).contains(card) <==> cards.contains(card) && card != taken,
{
    cards.index_of_first_ensures(taken);
    let at = cards.index_of_first(taken)->Some_0;
    let rest = cards.remove(at);
    cards.remove_ensures(at);
    assert forall|i: int, j: int|
        0 <= i < rest.len() && 0 <= j < rest.len() && i != j implies rest[i] != rest[j] by {
        let before_i = if i < at { i } else { i + 1 };
        let before_j = if j < at { j } else { j + 1 };
        assert(rest[i] == cards[before_i]);
        assert(rest[j] == cards[before_j]);
    }
    if rest.contains(card) {
        let i = choose|i: int| 0 <= i < rest.len() && rest[i] == card;
        let before = if i < at { i } else { i + 1 };
        assert(rest[i] == cards[before]);
    }
    if cards.contains(card) && card != taken {
        let i = choose|i: int| 0 <= i < cards.len() && cards[i] == card;
        let after = if i < at { i } else { i - 1 };
        assert(rest[after] == card);
    }
}

/// What a board holds after a card was put on an empty slot.
proof fn lemma_update_holds(
    slots: Seq<Option<CardHandle>>,
    slot: int,
    placed: CardHandle,
    card: CardHandle,
)
    requires
        0 <= slot < slots.len(),
        slots[slot] is None,
    ensures
        holds(slots.update(slot, Some(placed)), card) <==> holds(slots, card) || card == placed,
        slots_distinct(slots) && !holds(slots, placed) ==> slots_distinct(
            slots.update(slot, Some(placed)),
        ),
{
    let after = slots.update(slot, Some(placed));
    if holds(after, card) {
        let i = choose|i: int| 0 <= i < after.len() && after[i] == Some(card);
        if i != slot {
            assert(slots[i] == Some(card));
        }
    }
    if holds(slots, card) {
        let i = choose|i: int| 0 <= i < slots.len() && slots[i] == Some(card);
        assert(after[i] == Some(card));
    }
    if card == placed {
        assert(after[slot] == Some(card));
    }
    if slots_distinct(slots) && !holds(slots, placed) {
        assert forall|i: int, j: int| 0 <= i < j < after.len() && after[i] is Some implies after[i]
            != after[j] by {
            if i != slot {
                assert(slots[i] == after[i]);
            }
            if j != slot {
                assert(slots[j] == after[j]);
            }
        }
    }
}

/// A draw moves a card inside the side: every card lies in as many of the
/// side's containers as before, and no container holds a card twice.
pub proof fn lemma_side_draw_keeps_places(side: SideView)
    requires
        side.cards_distinct(),
        forall|card: CardHandle| #[trigger] side.places_of(card) <= 1,
    ensures
        side.after_draw().cards_distinct(),
        forall|card: CardHandle| #[trigger]
            side.after_draw().places_of(card) == side.places_of(card),
        side.after_draw().with_draws_refilled().cards_distinct(),
        forall|card: CardHandle| #[trigger]
            side.after_draw().with_draws_refilled().places_of(card) == side.places_of(card),
{
    match side.next_card() {
        Some(top) => {
            let deck = side.deck_cards();
            let after = side.after_draw();
            assert(after.deck_cards() == deck.drop_last());
            assert(after.with_draws_refilled().deck_cards() == deck.drop_last());
            assert(deck[deck.len() - 1] == top);
            assert(deck.contains(top));
            assert(side.places_of(top) <= 1);
            assert(!side.hand.contains(top));
            lemma_push_contains(side.hand, top, top);
            lemma_drop_last_contains(deck, top);
            assert forall|card: CardHandle| #[trigger]
                after.places_of(card) == side.places_of(card) by {
                lemma_drop_last_contains(deck, card);
                lemma_push_contains(side.hand, top, card);
                assert(side.places_of(card) <= 1);
            }
            assert forall|card: CardHandle| #[trigger]
                after.with_draws_refilled().places_of(card) == side.places_of(card) by {
                assert(after.places_of(card) == side.places_of(card));
            }
        },
        None => {},
    }
}

/// Placing a card moves it inside the side: every card lies in as many of
/// the side's containers as before, and no container holds a card twice.
pub proof fn lemma_side_place_keeps_places(side: SideView, placed: CardHandle, slot: int)
    requires
        side.cards_distinct(),
        side.board.len() == BOARD_SLOTS,
        forall|card: CardHandle| #[trigger] side.places_of(card) <= 1,
    ensures
        side.after_place(placed, slot).cards_distinct(),
        side.after_place(placed, slot).board.len() == BOARD_SLOTS,
        forall|card: CardHandle| #[trigger]
            side.after_place(placed, slot).places_of(card) == side.places_of(card),
{
    if side.place_outcome(placed, slot) is Placed {
        let after = side.after_place(placed, slot);
        assert(side.places_of(placed) <= 1);
        assert(!holds(side.board, placed));
        lemma_remove_value_contains(side.hand, placed, placed);
        lemma_update_holds(side.board, slot, placed, placed);
        assert forall|card: CardHandle| #[trigger]
            after.places_of(card) == side.places_of(card) by {
            lemma_remove_value_contains(side.hand, placed, card);
            lemma_update_holds(side.board, slot, placed, card);
            assert(side.places_of(card) <= 1);
        }
    }
}

/// A card that the side did not hold lies in one place after it was handed
/// to the side; nothing changes for the other cards.
pub proof fn lemma_side_receive_adds_place(side: SideView, added: CardHandle)
    requires
        side.cards_distinct(),
        side.places_of(added) == 0,
    ensures
        side.with_card(added).cards_distinct(),
        forall|card: CardHandle| #[trigger]
            side.with_card(added).places_of(card) == side.places_of(card) + if card == added {
                1nat
            } else {
                0nat
            },
{
    lemma_push_contains(side.hand, added, added);
    assert forall|card: CardHandle| #[trigger]
        side.with_card(added).places_of(card) == side.places_of(card) + if card == added {
            1nat
        } else {
            0nat
        } by {
        lemma_push_contains(side.hand, added, card);
    }
}

/// A match at its start is well formed.
pub proof fn lemma_opening_is_wf(
    state: MatchView,
    population: nat,
    definition: CardDefinitionView,
    draws: nat,
)
    requires
        state.opens_with(population, definition, draws),
        definition.strength <= u32::MAX,
    ensures
        state.wf(),
{
    let deck = state.player.deck_cards();
    assert forall|i: int, j: int|
        0 <= i < deck.len() && 0 <= j < deck.len() && i != j implies deck[i] != deck[j] by {
        assert(deck[i]@ == i);
        assert(deck[j]@ == j);
    }
    assert forall|card: CardHandle| #[trigger] state.places_of(card) > 0 implies knows(
        state.cards,
        card,
    ) by {
        assert(deck.contains(card));
        let i = choose|i: int| 0 <= i < deck.len() && deck[i] == card;
        assert(deck[i]@ == i);
    }
    assert forall|card: CardHandle| #[trigger] state.places_of(card) <= 1 by {}
}

/// A request to draw keeps a match well formed.
pub proof fn lemma_draw_keeps_wf(state: MatchView)
    requires
        state.wf(),
    ensures
        state.after_draw().wf(),
{
    if state.draw_outcome() is Drawn {
        let after = state.after_draw();
        assert forall|card: CardHandle| #[trigger] state.player.places_of(card) <= 1 by {
            assert(state.places_of(card) <= 1);
        }
        lemma_side_draw_keeps_places(state.player);
        assert forall|card: CardHandle| #[trigger]
            after.places_of(card) == state.places_of(card) by {
            assert(state.player.after_draw().places_of(card) == state.player.places_of(card));
            assert(state.player.after_draw().with_draws_refilled().places_of(card)
                == state.player.places_of(card));
        }
        assert forall|card: CardHandle| #[trigger] after.places_of(card) > 0 implies knows(
            after.cards,
            card,
        ) by {
            assert(state.places_of(card) > 0);
        }
        assert forall|card: CardHandle| #[trigger] after.places_of(card) <= 1 by {
            assert(state.places_of(card) <= 1);
        }
    }
}

/// In a well-formed match no round deals more than `MAX_ROUND_DAMAGE` to a
/// side.
pub proof fn lemma_round_damage_bounded(state: MatchView)
    requires
        state.strengths_fit(),
    ensures
        state.damage_to_player() <= MAX_ROUND_DAMAGE,
        state.damage_to_computer() <= MAX_ROUND_DAMAGE,
{
    lemma_damage_bounded(state.cards, state.player.board, state.computer.board, BOARD_SLOTS as nat);
    lemma_damage_bounded(state.cards, state.computer.board, state.player.board, BOARD_SLOTS as nat);
}

/// A request to end the round keeps a match well formed.
pub proof fn lemma_end_round_keeps_wf(state: MatchView)
    requires
        state.wf(),
    ensures
        state.after_end_round().wf(),
{
    if state.phase == Phase::Play {
        let after = state.after_end_round();
        lemma_round_damage_bounded(state);
        assert forall|card: CardHandle| #[trigger] after.places_of(card) > 0 implies knows(
            after.cards,
            card,
        ) by {
            assert(state.places_of(card) == after.places_of(card));
        }
        assert forall|card: CardHandle| #[trigger] after.places_of(card) <= 1 by {
            assert(state.places_of(card) == after.places_of(card));
        }
    }
}

/// A request to place a card keeps a match well formed.
pub proof fn lemma_place_keeps_wf(
    state: MatchView,
    identity: Identity,
    placed: CardHandle,
    slot: int,
)
    requires
        state.wf(),
    ensures
        state.after_place(identity, placed, slot).wf(),
{
    if state.place_outcome(identity, placed, slot) is Placed {
        let after = state.after_place(identity, placed, slot);
        let side = state.side(identity);
        assert forall|card: CardHandle| #[trigger] side.places_of(card) <= 1 by {
            assert(state.places_of(card) <= 1);
        }
        lemma_side_place_keeps_places(side, placed, slot);
        assert forall|card: CardHandle| #[trigger]
            after.places_of(card) == state.places_of(card) by {
            assert(side.after_place(placed, slot).places_of(card) == side.places_of(card));
        }
        assert forall|card: CardHandle| #[trigger] after.places_of(card) > 0 implies knows(
            after.cards,
            card,
        ) by {
            assert(state.places_of(card) > 0);
        }
        assert forall|card: CardHandle| #[trigger] after.places_of(card) <= 1 by {
            assert(state.places_of(card) <= 1);
        }
    }
}

/// Creating a card under the next free handle and giving it to a side
/// keeps a match well formed.
pub proof fn lemma_give_keeps_wf(
    state: MatchView,
    identity: Identity,
    definition: CardDefinitionView,
    created: CardHandle,
)
    requires
        state.wf(),
        created@ == state.cards.len(),
        definition.strength <= u32::MAX,
    ensures
        state.after_give(identity, definition, created).wf(),
{
    let after = state.after_give(identity, definition, created);
    let side = state.side(identity);
    assert(state.places_of(created) == 0) by {
        if state.places_of(created) > 0 {
            assert(knows(state.cards, created));
        }
    }
    lemma_side_receive_adds_place(side, created);
    assert forall|card: CardHandle| #[trigger]
        after.places_of(card) == state.places_of(card) + if card == created {
            1nat
        } else {
            0nat
        } by {
        assert(side.with_card(created).places_of(card) == side.places_of(card) + if card
            == created {
            1nat
        } else {
            0nat
        });
    }
    assert forall|card: CardHandle| #[trigger] after.places_of(card) > 0 implies knows(
        after.cards,
        card,
    ) by {
        if card != created {
            assert(state.places_of(card) > 0);
        }
    }
    assert forall|card: CardHandle| #[trigger] after.places_of(card) <= 1 by {
        assert(state.places_of(card) <= 1);
    }
    assert forall|i: int| 0 <= i < after.cards.len() implies (#[trigger] after.cards[i]).strength
        <= u32::MAX by {
        if i < state.cards.len() {
            assert(after.cards[i] == state.cards[i]);
        }
    }
}

/// In a well-formed match every striking card is a card of the catalog, so
/// resolving a round after the setup round gives the damage to each side.
pub proof fn lemma_resolution_succeeds(state: MatchView, round: nat)
    requires
        state.boards_whole(),
        state.cards_known(),
        round > 0,
    ensures
        resolution(state.cards, round, state.player.board, state.computer.board) == Ok::<
            (nat, nat),
            UnknownHandle,
        >((state.damage_to_player(), state.damage_to_computer())),
{
    let a = state.player.board;
    let b = state.computer.board;
    assert forall|column: int| 0 <= column < BOARD_SLOTS implies match striker(
        #[trigger] a[column],
        b[column],
    ) {
        Some(card) => knows(state.cards, card),
        None => true,
    } by {
        match striker(a[column], b[column]) {
            Some(card) => {
                assert(a[column] == Some(card) || b[column] == Some(card));
                assert(holds(a, card) || holds(b, card));
                assert(state.places_of(card) > 0);
            },
            None => {},
        }
    }
    reveal_with_fuel(first_unknown_striker, 4);
    assert(first_unknown_striker(state.cards, a, b, 0) is None);
}

} // verus!
