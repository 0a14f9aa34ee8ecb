use blackjack::blackjack::basic_game::DealingError;
use blackjack::blackjack::game::{Action, Event, Game};
use blackjack::blackjack::state::{State, StateError};

#[test]
fn engine_seats_a_player_sent_through_the_channels() {
    let mut game = Game::new();
    let tx = game.get_actions_sender();
    let rx = game.get_events_receiver();

    tx.send(Action::CreateAndAddPlayer(String::from("Ada"))).unwrap();
    game.step();

    let event = rx.try_recv().unwrap();
    assert!(matches!(event, Event::PlayerAdded(Ok(_))));
    assert!(rx.try_recv().is_err());
}

#[test]
fn engine_applies_actions_in_arrival_order() {
    let mut game = Game::new();
    let tx = game.get_actions_sender();
    let rx = game.get_events_receiver();

    tx.send(Action::CreateAndAddPlayer(String::from("First"))).unwrap();
    tx.send(Action::CreateAndAddPlayer(String::from("Second"))).unwrap();
    game.step();

    let first = match rx.try_recv().unwrap() {
        Event::PlayerAdded(Ok(id)) => id,
        other => panic!("unexpected event {:?}", other),
    };
    let second = match rx.try_recv().unwrap() {
        Event::PlayerAdded(Ok(id)) => id,
        other => panic!("unexpected event {:?}", other),
    };

    let state = game.get_state();
    let first_player = state.get_player_by_id(first).unwrap();
    assert_eq!(first_player.get_name().as_str(), "First");
    let second_player = state.get_player_by_id(second).unwrap();
    assert_eq!(second_player.get_name().as_str(), "Second");
}

#[test]
fn dealing_on_an_empty_shoe_surfaces_a_failure_and_deals_nothing() {
    let mut game = Game::with_decks(0);

    let events = game.apply_action(Action::CreateAndAddPlayer(String::from("Ada")));
    let id = match events[0] {
        Event::PlayerAdded(Ok(id)) => id,
        _ => panic!("player was not added"),
    };

    let events = game.apply_action(Action::Deal);
    assert_eq!(events.len(), 1);
    assert!(matches!(
        events[0],
        Event::DealingFailed(DealingError::TakingCardFromShoe)
    ));

    let player = game.get_state().get_player_by_id(id).unwrap();
    assert_eq!(player.get_current_hand().unwrap().get_card_count(), 0);
}

#[test]
fn a_full_shoe_deals_two_cards_each_and_reports_nothing() {
    let mut game = Game::with_decks(1);
    game.setup();

    let events = game.apply_action(Action::CreateAndAddPlayer(String::from("Ada")));
    let id = match events[0] {
        Event::PlayerAdded(Ok(id)) => id,
        _ => panic!("player was not added"),
    };

    let events = game.apply_action(Action::Deal);
    assert!(events.is_empty());

    let player = game.get_state().get_player_by_id(id).unwrap();
    assert_eq!(player.get_current_hand().unwrap().get_card_count(), 2);
}

#[test]
fn removing_an_unknown_player_reports_and_changes_nothing() {
    let mut state = State::new();
    assert_eq!(state.remove_player_by_id(42), Err(StateError::UnknownPlayer));

    let events_id;
    {
        let player = blackjack::blackjack::player::Player::new(String::from("Ada"));
        events_id = player.get_id();
        state.add_player(player);
    }
    assert!(state.get_player_by_id(events_id).is_some());
    assert!(state.remove_player_by_id(events_id).is_ok());
    assert!(state.get_player_by_id(events_id).is_none());
}
