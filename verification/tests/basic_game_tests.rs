use blackjack::blackjack::basic_game::{BasicGame, DealingError};
use blackjack::blackjack::player::Player;

#[test]
fn it_adds_player() {
    let mut game = BasicGame::new();

    let player = Player::new(String::from("Tester"));

    assert!(game.can_add_player());

    let expected_id = player.get_id();

    game.add_player(player);

    assert!(game.get_players().iter().find(|p| p.get_id() == expected_id).is_some());
}

#[test]
fn it_deals_cards() {
    let mut game = BasicGame::new();

    let player = Player::new(String::from("Tester"));
    let id = player.get_id();

    game.add_player(player);
    assert!(game.deal_cards().is_ok());

    let player = game.get_players().iter().find(|p| p.get_id() == id);
    assert!(player.is_some());

    let player = player.unwrap();
    assert!(player.get_current_hand().is_some());

    let current_hand = player.get_current_hand().unwrap();
    assert_eq!(current_hand.get_card_count(), 2);

    let dealer = game.get_dealer();
    assert!(dealer.get_current_hand().is_some());

    let current_hand = dealer.get_current_hand().unwrap();
    assert_eq!(current_hand.get_card_count(), 2);
}

#[test]
fn it_does_not_deal_with_no_decks() {
    let mut game = BasicGame::with_n_decks(0);

    let player = Player::new(String::from("Tester"));

    game.add_player(player);

    let deal_cards_result = game.deal_cards();

    assert!(deal_cards_result.is_err());
}

#[test]
fn a_failed_deal_names_the_empty_shoe() {
    let mut game = BasicGame::with_n_decks(0);
    game.add_player(Player::new(String::from("Tester")));

    assert_eq!(game.deal_cards(), Err(DealingError::TakingCardFromShoe));

    let player = &game.get_players()[0];
    assert_eq!(player.get_current_hand().unwrap().get_card_count(), 0);
    assert_eq!(game.get_dealer().get_current_hand().unwrap().get_card_count(), 0);
}

#[test]
fn dealing_error_messages_tell_the_two_failures_apart() {
    assert_eq!(DealingError::TakingCardFromShoe.message(), "Failed to take card from shoe");
    assert_eq!(
        DealingError::PushCardToPlayer.message(),
        "Failed to push card to player's current hand"
    );
}

#[test]
fn deal_alternates_passes_between_players_and_dealer() {
    let mut game = BasicGame::with_n_decks(1);
    game.add_player(Player::new(String::from("A")));
    game.add_player(Player::new(String::from("B")));

    assert!(game.deal_cards().is_ok());

    for player in game.get_players() {
        assert_eq!(player.get_current_hand().unwrap().get_card_count(), 2);
    }
    assert_eq!(game.get_dealer().get_current_hand().unwrap().get_card_count(), 2);
}

#[test]
fn seats_run_out_after_the_table_limit() {
    let mut game = BasicGame::new();
    for i in 0..7 {
        assert!(game.can_add_player());
        game.add_player(Player::new(format!("P{}", i)));
    }
    assert!(!game.can_add_player());
}
