//! Combat resolution: what two boards do to each other in one round.

use crate::board::{Board, BOARD_SLOTS};
use crate::card::{knows, strength_in, CardDefinitionView, CardHandle, Catalog, UnknownHandle};
use crate::round::Round;
use vstd::prelude::*;

verus! {

/// The most damage that one side can take in one round.
pub const MAX_ROUND_DAMAGE: u64 = 12884901885;

/// The card that strikes in a column: the one that faces an empty slot.
/// Where both slots are filled or both are empty, nothing strikes.
pub open spec fn striker(a: Option<CardHandle>, b: Option<CardHandle>) -> Option<CardHandle> {
    match (a, b) {
        (Some(card), None) => Some(card),
        (None, Some(card)) => Some(card),
        _ => None,
    }
}

/// The strength of the card in `slot`; 0 for an empty slot.
pub open spec fn slot_strength(cards: Seq<CardDefinitionView>, slot: Option<CardHandle>) -> nat {
    match slot {
        Some(card) => strength_in(cards, card),
        None => 0,
    }
}

/// The damage that the side of slot `defender` takes in one column: the
/// strength of the card in front of it, if its own slot is empty.
pub open spec fn column_damage(
    cards: Seq<CardDefinitionView>,
    defender: Option<CardHandle>,
    attacker: Option<CardHandle>,
) -> nat {
    match (defender, attacker) {
        (None, Some(card)) => strength_in(cards, card),
        _ => 0,
    }
}

/// The damage that the side of board `defender` takes in the first `columns`
/// columns.
pub open spec fn damage_in_columns(
    cards: Seq<CardDefinitionView>,
    defender: Seq<Option<CardHandle>>,
    attacker: Seq<Option<CardHandle>>,
    columns: nat,
) -> nat
    decreases columns,
{
    if columns == 0 {
        0
    } else {
        damage_in_columns(cards, defender, attacker, (columns - 1) as nat) + column_damage(
            cards,
            defender[columns - 1],
            attacker[columns - 1],
        )
    }
}

/// The damage that the side of board `defender` takes from board `attacker`
/// in a round: the sum over all columns.
pub open spec fn damage_to(
    cards: Seq<CardDefinitionView>,
    defender: Seq<Option<CardHandle>>,
    attacker: Seq<Option<CardHandle>>,
) -> nat {
    damage_in_columns(cards, defender, attacker, BOARD_SLOTS as nat)
}

/// The first striking card, from column `from` on, that the catalog does not
/// know.
pub open spec fn first_unknown_striker(
    cards: Seq<CardDefinitionView>,
    a: Seq<Option<CardHandle>>,
    b: Seq<Option<CardHandle>>,
    from: nat,
) -> Option<CardHandle>
    decreases BOARD_SLOTS - from,
{
    if from >= BOARD_SLOTS {
        None
    } else {
        match striker(a[from as int], b[from as int]) {
            Some(card) if !knows(cards, card) => Some(card),
            _ => first_unknown_striker(cards, a, b, from + 1),
        }
    }
}

/// What resolving round `round` gives for boards `a` and `b`: the damage to
/// the side of `a` and to the side of `b`. Round 0 is a setup round and deals
/// no damage, whatever the boards hold. In later rounds every striking card
/// is looked up, column by column, and the first that the catalog does not
/// know is the error.
pub open spec fn resolution(
    cards: Seq<CardDefinitionView>,
    round: nat,
    a: Seq<Option<CardHandle>>,
    b: Seq<Option<CardHandle>>,
) -> Result<(nat, nat), UnknownHandle> {
    if round == 0 {
        Ok((0, 0))
    } else {
        match first_unknown_striker(cards, a, b, 0) {
            Some(handle) => Err(UnknownHandle { handle }),
            None => Ok((damage_to(cards, a, b), damage_to(cards, b, a))),
        }
    }
}

/// A card's strength fits a `u32`, so the damage of `columns` columns is at
/// most `columns` times the largest `u32`.
pub proof fn lemma_damage_bounded(
    cards: Seq<CardDefinitionView>,
    defender: Seq<Option<CardHandle>>,
    attacker: Seq<Option<CardHandle>>,
    columns: nat,
)
    requires
        forall|i: int| 0 <= i < cards.len() ==> (#[trigger] cards[i]).strength <= u32::MAX,
    ensures
        damage_in_columns(cards, defender, attacker, columns) <= columns * u32::MAX,
    decreases columns,
{
    if columns > 0 {
        lemma_damage_bounded(cards, defender, attacker, (columns - 1) as nat);
    }
}

/// Resolves one round of combat between board `board_a` and board `board_b`
/// and returns the damage to the side of each, in that order.
pub fn resolve(round: &Round, board_a: &Board, board_b: &Board, catalog: &Catalog) -> (result:
    Result<(u64, u64), UnknownHandle>)
    ensures
        match resolution(catalog@, round@, board_a@, board_b@) {
            Ok((to_a, to_b)) => {
                &&& to_a <= MAX_ROUND_DAMAGE
                &&& to_b <= MAX_ROUND_DAMAGE
                &&& result == Ok::<(u64, u64), UnknownHandle>((to_a as u64, to_b as u64))
            },
            Err(unknown) => result == Err::<(u64, u64), UnknownHandle>(unknown),
        },
{
    if round.counter() == 0 {
        return Ok((0, 0));
    }
    proof {
        board_a.lemma_len();
        board_b.lemma_len();
    }
    let mut to_a: u64 = 0;
    let mut to_b: u64 = 0;
    let mut column: usize = 0;
    while column < BOARD_SLOTS
        invariant
            column <= BOARD_SLOTS,
            round@ != 0,
            board_a@.len() == BOARD_SLOTS,
            board_b@.len() == BOARD_SLOTS,
            to_a == damage_in_columns(catalog@, board_a@, board_b@, column as nat),
            to_b == damage_in_columns(catalog@, board_b@, board_a@, column as nat),
            to_a <= column * u32::MAX,
            to_b <= column * u32::MAX,
            first_unknown_striker(catalog@, board_a@, board_b@, 0) == first_unknown_striker(
                catalog@,
                board_a@,
                board_b@,
                column as nat,
            ),
        decreases BOARD_SLOTS - column,
    {
        match (board_a.slot(column), board_b.slot(column)) {
            (Some(card), None) => {
                match catalog.strength_of(card) {
                    Ok(strength) => {
                        to_b = to_b + strength as u64;
                    },
                    Err(unknown) => {
                        return Err(unknown);
                    },
                }
            },
            (None, Some(card)) => {
                match catalog.strength_of(card) {
                    Ok(strength) => {
                        to_a = to_a + strength as u64;
                    },
                    Err(unknown) => {
                        return Err(unknown);
                    },
                }
            },
            _ => {},
        }
        column += 1;
    }
    Ok((to_a, to_b))
}

} // verus!
