use card_battle::card::{CardDefinition, Catalog, UnknownHandle};

#[test]
fn basic_unit_is_a_rat_of_strength_one() {
    let unit = CardDefinition::basic_unit();
    assert_eq!(unit.name(), "Rat");
    assert_eq!(unit.strength(), 1);
}

#[test]
fn definition_keeps_name_and_strength() {
    let ogre = CardDefinition::new(String::from("Ogre"), 7);
    assert_eq!(ogre.name(), "Ogre");
    assert_eq!(ogre.strength(), 7);
}

#[test]
fn new_catalog_is_empty() {
    let catalog = Catalog::new();
    assert_eq!(catalog.len(), 0);
}

#[test]
fn create_card_issues_distinct_handles() {
    let mut catalog = Catalog::new();
    let first = catalog.create_card(CardDefinition::basic_unit());
    let second = catalog.create_card(CardDefinition::basic_unit());
    assert_ne!(first, second);
    assert_eq!(catalog.len(), 2);
    assert!(catalog.contains(first));
    assert!(catalog.contains(second));
}

#[test]
fn strength_of_resolves_each_card_to_its_own_definition() {
    let mut catalog = Catalog::new();
    let rat = catalog.create_card(CardDefinition::basic_unit());
    let ogre = catalog.create_card(CardDefinition::new(String::from("Ogre"), 7));
    let giant = catalog.create_card(CardDefinition::new(String::from("Giant"), u32::MAX));
    assert_eq!(catalog.strength_of(rat), Ok(1));
    assert_eq!(catalog.strength_of(ogre), Ok(7));
    assert_eq!(catalog.strength_of(giant), Ok(u32::MAX));
    assert_eq!(catalog.definition_of(ogre).map(|d| d.name().as_str()), Ok("Ogre"));
}

#[test]
fn many_cards_may_share_one_definition() {
    let mut catalog = Catalog::new();
    let a = catalog.create_card(CardDefinition::basic_unit());
    let b = catalog.create_card(CardDefinition::basic_unit());
    assert_eq!(catalog.definition_of(a), catalog.definition_of(b));
    assert_ne!(a, b);
}

#[test]
fn strength_of_unknown_handle_is_an_error() {
    let mut large = Catalog::new();
    large.create_card(CardDefinition::basic_unit());
    let stranger = large.create_card(CardDefinition::basic_unit());
    let mut small = Catalog::new();
    small.create_card(CardDefinition::basic_unit());
    assert!(!small.contains(stranger));
    assert_eq!(small.strength_of(stranger), Err(UnknownHandle { handle: stranger }));
    assert_eq!(small.definition_of(stranger), Err(UnknownHandle { handle: stranger }));
}

#[test]
fn handle_of_empty_catalog_is_unknown() {
    let mut other = Catalog::new();
    let handle = other.create_card(CardDefinition::basic_unit());
    let empty = Catalog::new();
    assert_eq!(empty.strength_of(handle), Err(UnknownHandle { handle }));
}
