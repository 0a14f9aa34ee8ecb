use blackjack::blackjack::player::Player as TablePlayer;
use blackjack::cards::card::Card;
use blackjack::cards::player::Player;
use blackjack::cards::rank::Rank;
use blackjack::cards::suit::Suit;

#[test]
fn should_set_player_name() {
    let mut player = Player::new();

    player.set_name(String::from("Test"));

    assert!(player.get_name().eq(&Some(String::from("Test"))));
}

#[test]
fn named_player_starts_with_its_name() {
    let player = Player::new_with_name(String::from("Ada"));
    assert!(player.get_name().eq(&Some(String::from("Ada"))));

    let anonymous = Player::new();
    assert!(anonymous.get_name().is_none());
}

#[test]
fn it_does_push_cards_to_curr_hand() {
    let mut player = TablePlayer::new(String::from("Test"));

    let card = Card::from(Suit::Spade, Rank::King);

    assert!(player.push_card_to_current_hand(card).is_ok());

    let hand = player.get_current_hand();

    assert!(hand.is_some());

    let hand = hand.unwrap();

    let cards = hand.get_cards();

    assert_eq!(cards.len(), 1 as usize);

    let card_from_hand = cards.first();

    assert!(card_from_hand.is_some());

    let card_from_hand = *card_from_hand.unwrap();

    assert_eq!(card, card_from_hand);
}

#[test]
fn table_players_carry_name_funds_and_kind() {
    let mut player = TablePlayer::new(String::from("Ada"));
    assert_eq!(player.get_name().as_str(), "Ada");
    assert_eq!(player.get_available_funds(), 0);
    assert!(matches!(
        player.get_player_type(),
        blackjack::blackjack::player::PlayerType::Player
    ));

    player.add_funds(250);
    assert_eq!(player.get_available_funds(), 250);

    let dealer = TablePlayer::new_dealer(String::from("Dealer"));
    assert!(matches!(
        dealer.get_player_type(),
        blackjack::blackjack::player::PlayerType::Dealer
    ));
}

#[test]
fn fresh_players_get_distinct_ids() {
    let a = TablePlayer::new(String::from("A"));
    let b = TablePlayer::new(String::from("B"));
    assert_ne!(a.get_id(), b.get_id());
}
