use card_battle::card::{CardDefinition, CardHandle};
use card_battle::game::{
    give_card, new_match, new_match_with, observe, request_draw, request_end_round,
    request_place, MatchState, STARTING_POPULATION,
};
use card_battle::round::Phase;
use card_battle::rules::{DrawOutcome, EndRoundOutcome};
use card_battle::side::{Identity, PlaceOutcome};

fn drawn(outcome: DrawOutcome) -> CardHandle {
    match outcome {
        DrawOutcome::Drawn(card) => card,
        other => panic!("expected a card, got {:?}", other),
    }
}

fn deck_len(state: &MatchState) -> usize {
    state.player().deck().map(|deck| deck.len()).unwrap_or(0)
}

#[test]
fn new_match_starts_in_draw_phase_at_round_zero() {
    let state = new_match();
    assert_eq!(state.round(), 0);
    assert_eq!(state.phase(), Phase::Draw);
    assert_eq!(state.player().health(), 10);
    assert_eq!(state.computer().health(), 10);
    assert_eq!(state.player().identity(), Identity::Player);
    assert_eq!(state.computer().identity(), Identity::Computer);
    assert_eq!(STARTING_POPULATION, 60);
    assert_eq!(deck_len(&state), 60);
    assert_eq!(state.catalog().len(), 60);
    assert_eq!(state.player().draws_remaining(), 1);
    assert!(state.computer().deck().is_none());
    assert!(state.player().hand().is_empty());
    assert!(state.computer().hand().is_empty());
    assert_eq!(state.player().board().slots(), [None, None, None]);
    assert_eq!(state.computer().board().slots(), [None, None, None]);
}

#[test]
fn new_match_deck_holds_sixty_basic_units() {
    let state = new_match();
    let deck = state.player().deck().expect("the player has a deck");
    for card in deck.cards() {
        assert_eq!(state.catalog().strength_of(*card), Ok(1));
        assert_eq!(
            state.catalog().definition_of(*card).map(|d| d.name().clone()),
            Ok(String::from("Rat"))
        );
    }
}

#[test]
fn first_draw_takes_the_card_created_last() {
    let mut state = new_match_with(3, 1);
    let bottom_to_top = state.player().deck().expect("deck").cards().clone();
    assert_eq!(request_draw(&mut state), DrawOutcome::Drawn(bottom_to_top[2]));
    assert_eq!(state.player().hand().cards(), &vec![bottom_to_top[2]]);
    assert_eq!(
        state.player().deck().expect("deck").cards(),
        &vec![bottom_to_top[0], bottom_to_top[1]]
    );
}

#[test]
fn round_counter_moves_by_one_per_round_ended_in_play_phase() {
    let mut state = new_match();
    for round in 0..5u64 {
        assert_eq!(state.round(), round);
        assert_eq!(request_end_round(&mut state), EndRoundOutcome::NotInPlayPhase);
        assert_eq!(state.round(), round);
        drawn(request_draw(&mut state));
        assert_eq!(state.round(), round);
        assert_eq!(request_draw(&mut state), DrawOutcome::NotInDrawPhase);
        assert_eq!(state.round(), round);
        assert_eq!(request_end_round(&mut state), EndRoundOutcome::Resolved(0, 0));
        assert_eq!(state.round(), round + 1);
    }
}

#[test]
fn draw_from_empty_deck_changes_nothing() {
    let mut state = new_match_with(0, 1);
    assert_eq!(request_draw(&mut state), DrawOutcome::DeckEmpty);
    assert_eq!(state.player().draws_remaining(), 1);
    assert!(state.player().hand().is_empty());
    assert_eq!(deck_len(&state), 0);
    assert_eq!(state.phase(), Phase::Draw);
    assert_eq!(state.round(), 0);
    assert_eq!(request_draw(&mut state), DrawOutcome::DeckEmpty);
    assert_eq!(state.phase(), Phase::Draw);
}

#[test]
fn draw_from_empty_deck_without_draws_left_changes_nothing() {
    let mut state = new_match_with(0, 0);
    assert_eq!(request_draw(&mut state), DrawOutcome::DeckEmpty);
    assert_eq!(state.player().draws_remaining(), 0);
    assert_eq!(state.phase(), Phase::Draw);
}

#[test]
fn deck_runs_empty_after_its_last_card() {
    let mut state = new_match_with(1, 1);
    drawn(request_draw(&mut state));
    assert_eq!(request_end_round(&mut state), EndRoundOutcome::Resolved(0, 0));
    let hand_before = state.player().hand().cards().clone();
    assert_eq!(request_draw(&mut state), DrawOutcome::DeckEmpty);
    assert_eq!(state.player().hand().cards(), &hand_before);
    assert_eq!(state.player().draws_remaining(), 1);
    assert_eq!(state.phase(), Phase::Draw);
}

#[test]
fn last_draw_of_the_round_begins_play_and_resets_the_allowance() {
    let mut state = new_match_with(5, 2);
    drawn(request_draw(&mut state));
    assert_eq!(state.phase(), Phase::Draw);
    assert_eq!(state.player().draws_remaining(), 1);
    drawn(request_draw(&mut state));
    assert_eq!(state.phase(), Phase::Play);
    assert_eq!(state.player().draws_remaining(), 1);
    assert_eq!(state.player().hand().len(), 2);
    assert_eq!(deck_len(&state), 3);
}

#[test]
fn draw_with_no_allowance_left_still_begins_play() {
    let mut state = new_match_with(2, 0);
    drawn(request_draw(&mut state));
    assert_eq!(state.phase(), Phase::Play);
    assert_eq!(state.player().draws_remaining(), 1);
}

#[test]
fn end_round_in_draw_phase_is_refused_and_changes_nothing() {
    let mut state = new_match();
    let rat = drawn(request_draw(&mut state));
    assert_eq!(request_place(&mut state, Identity::Player, rat, 0), PlaceOutcome::Placed);
    assert_eq!(request_end_round(&mut state), EndRoundOutcome::Resolved(0, 1));
    let before = observe(&state);
    assert_eq!(before.phase, Phase::Draw);
    assert_eq!(request_end_round(&mut state), EndRoundOutcome::NotInPlayPhase);
    assert_eq!(observe(&state), before);
    assert_eq!(before.round, 1);
    assert_eq!(before.computer_health, 9);
    assert_eq!(before.player_board, [Some(rat), None, None]);
}

#[test]
fn lone_rat_takes_one_health_off_the_computer() {
    let mut state = new_match();
    assert_eq!(state.player().health(), 10);
    assert_eq!(state.computer().health(), 10);
    let rat = drawn(request_draw(&mut state));
    assert_eq!(state.catalog().strength_of(rat), Ok(1));
    assert_eq!(request_place(&mut state, Identity::Player, rat, 0), PlaceOutcome::Placed);
    assert_eq!(state.player().board().slots(), [Some(rat), None, None]);
    assert_eq!(state.computer().board().slots(), [None, None, None]);
    assert_eq!(request_end_round(&mut state), EndRoundOutcome::Resolved(0, 1));
    assert_eq!(state.computer().health(), 9);
    assert_eq!(state.player().health(), 10);
    assert_eq!(state.round(), 1);
    assert_eq!(state.phase(), Phase::Draw);
}

#[test]
fn full_boards_of_rats_cancel_each_other() {
    let mut state = new_match();
    drawn(request_draw(&mut state));
    for slot in 0..3 {
        let ours = give_card(&mut state, Identity::Player, CardDefinition::basic_unit());
        let theirs = give_card(&mut state, Identity::Computer, CardDefinition::basic_unit());
        assert_eq!(request_place(&mut state, Identity::Player, ours, slot), PlaceOutcome::Placed);
        assert_eq!(
            request_place(&mut state, Identity::Computer, theirs, slot),
            PlaceOutcome::Placed
        );
    }
    assert_eq!(request_end_round(&mut state), EndRoundOutcome::Resolved(0, 0));
    assert_eq!(state.player().health(), 10);
    assert_eq!(state.computer().health(), 10);
    assert_eq!(state.round(), 1);
}

#[test]
fn second_draw_in_a_round_is_refused() {
    let mut state = new_match_with(3, 1);
    assert_eq!(state.player().draws_remaining(), 1);
    assert_eq!(deck_len(&state), 3);
    let first = request_draw(&mut state);
    assert!(matches!(first, DrawOutcome::Drawn(_)));
    assert_eq!(state.phase(), Phase::Play);
    assert_eq!(request_draw(&mut state), DrawOutcome::NotInDrawPhase);
    assert_eq!(deck_len(&state), 2);
    assert_eq!(state.player().hand().len(), 1);
    assert_eq!(state.phase(), Phase::Play);
}

#[test]
fn cards_stay_on_the_board_and_strike_every_round() {
    let mut state = new_match();
    drawn(request_draw(&mut state));
    let ogre = give_card(
        &mut state,
        Identity::Computer,
        CardDefinition::new(String::from("Ogre"), 7),
    );
    assert_eq!(request_place(&mut state, Identity::Computer, ogre, 1), PlaceOutcome::Placed);
    assert_eq!(request_end_round(&mut state), EndRoundOutcome::Resolved(7, 0));
    assert_eq!(state.player().health(), 3);
    drawn(request_draw(&mut state));
    assert_eq!(request_end_round(&mut state), EndRoundOutcome::Resolved(7, 0));
    assert_eq!(state.player().health(), -4);
    assert_eq!(state.computer().health(), 10);
    assert_eq!(state.computer().board().slots(), [None, Some(ogre), None]);
    assert_eq!(state.round(), 2);
}

#[test]
fn damage_adds_up_over_the_columns() {
    let mut state = new_match();
    drawn(request_draw(&mut state));
    let two = give_card(&mut state, Identity::Player, CardDefinition::new(String::from("A"), 2));
    let three =
        give_card(&mut state, Identity::Computer, CardDefinition::new(String::from("B"), 3));
    let five = give_card(&mut state, Identity::Player, CardDefinition::new(String::from("C"), 5));
    assert_eq!(request_place(&mut state, Identity::Player, two, 0), PlaceOutcome::Placed);
    assert_eq!(request_place(&mut state, Identity::Computer, three, 1), PlaceOutcome::Placed);
    assert_eq!(request_place(&mut state, Identity::Player, five, 2), PlaceOutcome::Placed);
    assert_eq!(request_end_round(&mut state), EndRoundOutcome::Resolved(3, 7));
    assert_eq!(state.player().health(), 7);
    assert_eq!(state.computer().health(), 3);
}

#[test]
fn place_is_refused_in_draw_phase() {
    let mut state = new_match();
    let card = give_card(&mut state, Identity::Player, CardDefinition::basic_unit());
    assert_eq!(state.phase(), Phase::Draw);
    assert_eq!(
        request_place(&mut state, Identity::Player, card, 0),
        PlaceOutcome::NotInPlayPhase
    );
    assert_eq!(state.player().hand().cards(), &vec![card]);
    assert_eq!(state.player().board().slots(), [None, None, None]);
}

#[test]
fn place_names_what_went_wrong() {
    let mut state = new_match();
    let first = drawn(request_draw(&mut state));
    let second = give_card(&mut state, Identity::Player, CardDefinition::basic_unit());
    let theirs = give_card(&mut state, Identity::Computer, CardDefinition::basic_unit());
    assert_eq!(request_place(&mut state, Identity::Player, first, 3), PlaceOutcome::NoSuchSlot);
    assert_eq!(request_place(&mut state, Identity::Player, first, 1), PlaceOutcome::Placed);
    assert_eq!(
        request_place(&mut state, Identity::Player, second, 1),
        PlaceOutcome::SlotOccupied
    );
    assert_eq!(
        request_place(&mut state, Identity::Player, theirs, 0),
        PlaceOutcome::CardNotInHand
    );
    assert_eq!(
        request_place(&mut state, Identity::Player, first, 0),
        PlaceOutcome::CardNotInHand
    );
    assert_eq!(state.player().hand().cards(), &vec![second]);
    assert_eq!(state.computer().hand().cards(), &vec![theirs]);
    assert_eq!(state.player().board().slots(), [None, Some(first), None]);
}

#[test]
fn card_in_the_deck_cannot_be_placed() {
    let mut state = new_match_with(2, 1);
    let bottom = state.player().deck().expect("deck").cards()[0];
    drawn(request_draw(&mut state));
    assert_eq!(
        request_place(&mut state, Identity::Player, bottom, 0),
        PlaceOutcome::CardNotInHand
    );
}

#[test]
fn give_card_hands_a_new_card_to_the_side() {
    let mut state = new_match_with(0, 1);
    let ogre = give_card(
        &mut state,
        Identity::Computer,
        CardDefinition::new(String::from("Ogre"), 7),
    );
    assert_eq!(state.catalog().len(), 1);
    assert_eq!(state.catalog().strength_of(ogre), Ok(7));
    assert_eq!(state.computer().hand().cards(), &vec![ogre]);
    assert!(state.player().hand().is_empty());
    assert_eq!(state.side(Identity::Computer).hand().len(), 1);
    assert_eq!(state.side(Identity::Player).hand().len(), 0);
}

#[test]
fn a_card_lies_in_one_place_at_a_time() {
    let mut state = new_match_with(4, 1);
    let card = drawn(request_draw(&mut state));
    let in_deck = |s: &MatchState| s.player().deck().expect("deck").cards().contains(&card);
    let in_hand = |s: &MatchState| s.player().hand().cards().contains(&card);
    let on_board = |s: &MatchState| s.player().board().slots().contains(&Some(card));
    assert!(!in_deck(&state) && in_hand(&state) && !on_board(&state));
    assert_eq!(request_place(&mut state, Identity::Player, card, 2), PlaceOutcome::Placed);
    assert!(!in_deck(&state) && !in_hand(&state) && on_board(&state));
}

#[test]
fn observe_copies_the_match() {
    let mut state = new_match();
    let rat = drawn(request_draw(&mut state));
    let ogre = give_card(
        &mut state,
        Identity::Computer,
        CardDefinition::new(String::from("Ogre"), 12),
    );
    request_place(&mut state, Identity::Player, rat, 2);
    request_place(&mut state, Identity::Computer, ogre, 0);
    let during = observe(&state);
    assert_eq!(during.round, 0);
    assert_eq!(during.phase, Phase::Play);
    assert_eq!(during.player_health, 10);
    assert_eq!(during.computer_health, 10);
    assert_eq!(during.player_board, [None, None, Some(rat)]);
    assert_eq!(during.computer_board, [Some(ogre), None, None]);
    request_end_round(&mut state);
    let after = observe(&state);
    assert_eq!(after.round, 1);
    assert_eq!(after.phase, Phase::Draw);
    assert_eq!(after.player_health, -2);
    assert_eq!(after.computer_health, 9);
}

#[test]
fn whole_deck_can_be_played_out() {
    let mut state = new_match();
    for round in 0..60u64 {
        drawn(request_draw(&mut state));
        assert!(matches!(request_end_round(&mut state), EndRoundOutcome::Resolved(0, 0)));
        assert_eq!(state.round(), round + 1);
    }
    assert_eq!(deck_len(&state), 0);
    assert_eq!(state.player().hand().len(), 60);
    assert_eq!(request_draw(&mut state), DrawOutcome::DeckEmpty);
}
