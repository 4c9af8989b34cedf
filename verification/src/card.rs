//! Card definitions, card handles and the catalog that binds one to the other.

use vstd::prelude::*;

verus! {

/// What a kind of card is: its name and how hard it hits.
#[derive(Debug, Clone, PartialEq, Eq)]
pub struct CardDefinition {
    name: String,
    strength: u32,
}

/// The mathematical value of a `CardDefinition`.
pub struct CardDefinitionView {
    pub name: Seq<char>,
    pub strength: nat,
}

impl View for CardDefinition {
    type V = CardDefinitionView;

    closed spec fn view(&self) -> CardDefinitionView {
        CardDefinitionView { name: self.name@, strength: self.strength as nat }
    }
}

impl CardDefinition {
    /// A definition with the given name and strength.
    pub fn new(name: String, strength: u32) -> (definition: CardDefinition)
        ensures
            definition@.name == name@,
            definition@.strength == strength,
    {
        CardDefinition { name, strength }
    }

    /// The mathematical value of the basic unit.
    pub open spec fn basic_unit_view() -> CardDefinitionView {
        CardDefinitionView { name: "Rat"@, strength: 1 }
    }

    /// The one kind of card the game has so far: a rat of strength 1.
    pub fn basic_unit() -> (definition: CardDefinition)
        ensures
            definition@ == Self::basic_unit_view(),
    {
        CardDefinition { name: "Rat".to_owned(), strength: 1 }
    }

    /// The name of the kind of card.
    pub fn name(&self) -> (name: &String)
        ensures
            name@ == self@.name,
    {
        &self.name
    }

    /// The damage that a card of this kind deals when nothing faces it.
    pub fn strength(&self) -> (strength: u32)
        ensures
            strength == self@.strength,
    {
        self.strength
    }

    /// A definition never claims more strength than a `u32` holds.
    pub proof fn lemma_strength_bounded(&self)
        ensures
            self@.strength <= u32::MAX,
    {
    }
}

/// Names one card instance of a catalog. A handle is moved between the deck,
/// a hand and a board slot; the card's data stays in the catalog.
#[derive(Debug, Clone, Copy, PartialEq, Eq, Hash, Structural)]
pub struct CardHandle {
    index: usize,
}

impl View for CardHandle {
    type V = nat;

    /// The position of the card in its catalog.
    closed spec fn view(&self) -> nat {
        self.index as nat
    }
}

impl CardHandle {
    /// Two handles with the same position are the same handle.
    pub proof fn lemma_view_injective(self, other: CardHandle)
        ensures
            self@ == other@ <==> self == other,
    {
    }
}

/// The error of looking up a handle that the catalog never issued.
#[derive(Debug, Clone, Copy, PartialEq, Eq, Structural)]
pub struct UnknownHandle {
    pub handle: CardHandle,
}

/// Every card instance of a match, in order of creation.
#[derive(Debug)]
pub struct Catalog {
    cards: Vec<CardDefinition>,
}

impl View for Catalog {
    type V = Seq<CardDefinitionView>;

    closed spec fn view(&self) -> Seq<CardDefinitionView> {
        self.cards@.map_values(|d: CardDefinition| d@)
    }
}

/// Whether a catalog with these cards has issued `handle`.
pub open spec fn knows(cards: Seq<CardDefinitionView>, handle: CardHandle) -> bool {
    handle@ < cards.len()
}

/// The strength of the card that `handle` names; 0 for a handle never issued.
pub open spec fn strength_in(cards: Seq<CardDefinitionView>, handle: CardHandle) -> nat {
    if knows(cards, handle) {
        cards[handle@ as int].strength
    } else {
        0
    }
}

impl Catalog {
    /// A catalog without cards.
    pub fn new() -> (catalog: Catalog)
        ensures
            catalog@ == Seq::<CardDefinitionView>::empty(),
    {
        let catalog = Catalog { cards: Vec::new() };
        assert(catalog@ =~= Seq::<CardDefinitionView>::empty());
        catalog
    }

    /// The number of cards created so far.
    pub fn len(&self) -> (len: usize)
        ensures
            len == self@.len(),
    {
        self.cards.len()
    }

    /// Creates a card instance bound to `definition`. The new handle names the
    /// next free position; every handle issued before keeps its card.
    pub fn create_card(&mut self, definition: CardDefinition) -> (handle: CardHandle)
        ensures
            final(self)@ == old(self)@.push(definition@),
            handle@ == old(self)@.len(),
    {
        let index = self.cards.len();
        self.cards.push(definition);
        assert(self@ =~= old(self)@.push(definition@));
        CardHandle { index }
    }

    /// Whether this catalog issued `handle`.
    pub fn contains(&self, handle: CardHandle) -> (known: bool)
        ensures
            known == knows(self@, handle),
    {
        handle.index < self.cards.len()
    }

    /// The definition behind `handle`, or the error that this catalog never
    /// issued the handle.
    pub fn definition_of(&self, handle: CardHandle) -> (result: Result<
        &CardDefinition,
        UnknownHandle,
    >)
        ensures
            match result {
                Ok(definition) => knows(self@, handle) && definition@ == self@[handle@ as int],
                Err(unknown) => !knows(self@, handle) && unknown.handle == handle,
            },
    {
        if handle.index < self.cards.len() {
            Ok(&self.cards[handle.index])
        } else {
            Err(UnknownHandle { handle })
        }
    }

    /// The strength of the card behind `handle`, or the error that this
    /// catalog never issued the handle.
    pub fn strength_of(&self, handle: CardHandle) -> (result: Result<u32, UnknownHandle>)
        ensures
            match result {
                Ok(strength) => knows(self@, handle) && strength == strength_in(self@, handle),
                Err(unknown) => !knows(self@, handle) && unknown.handle == handle,
            },
    {
        if handle.index < self.cards.len() {
            Ok(self.cards[handle.index].strength)
        } else {
            Err(UnknownHandle { handle })
        }
    }
}

} // verus!
