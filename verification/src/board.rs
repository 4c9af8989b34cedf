//! The three-slot battlefield of a side.

use crate::card::CardHandle;
use vstd::prelude::*;

verus! {

/// The number of slots of a board, and so of columns in a battle.
pub const BOARD_SLOTS: usize = 3;

/// A row of `BOARD_SLOTS` slots, each empty or holding one card. Slot `i` of
/// one board faces slot `i` of the other.
#[derive(Debug, Clone, Copy, PartialEq, Eq)]
pub struct Board {
    slots: [Option<CardHandle>; 3],
}

impl View for Board {
    type V = Seq<Option<CardHandle>>;

    closed spec fn view(&self) -> Seq<Option<CardHandle>> {
        self.slots@
    }
}

/// Whether some slot of `slots` holds `card`.
pub open spec fn holds(slots: Seq<Option<CardHandle>>, card: CardHandle) -> bool {
    slots.contains(Some(card))
}

/// No card stands in two slots of `slots`.
pub open spec fn slots_distinct(slots: Seq<Option<CardHandle>>) -> bool {
    forall|i: int, j: int|
        0 <= i < j < slots.len() && slots[i] is Some ==> slots[i] != slots[j]
}

impl Board {
    /// A board always has `BOARD_SLOTS` slots.
    pub proof fn lemma_len(&self)
        ensures
            self@.len() == BOARD_SLOTS,
    {
    }

    /// A board with every slot empty.
    pub fn new() -> (board: Board)
        ensures
            board@ == Seq::new(BOARD_SLOTS as nat, |i: int| None::<CardHandle>),
    {
        let board = Board { slots: [None, None, None] };
        assert(board@ =~= Seq::new(BOARD_SLOTS as nat, |i: int| None::<CardHandle>));
        board
    }

    /// What slot `index` holds.
    pub fn slot(&self, index: usize) -> (content: Option<CardHandle>)
        requires
            index < BOARD_SLOTS,
        ensures
            content == self@[index as int],
    {
        self.slots[index]
    }

    /// The three slots from left to right.
    pub fn slots(&self) -> (slots: [Option<CardHandle>; 3])
        ensures
            slots@ == self@,
    {
        self.slots
    }

    /// Puts `content` into slot `index`, whatever was there before.
    pub fn assign(&mut self, index: usize, content: Option<CardHandle>)
        requires
            index < BOARD_SLOTS,
        ensures
            final(self)@ == old(self)@.update(index as int, content),
    {
        self.slots[index] = content;
    }
}

} // verus!
