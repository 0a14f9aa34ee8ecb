use blackjack::blackjack::blackjack_hand::{BlackjackHand, ResultState, ResultsState};
use blackjack::blackjack::player::PlayerType;
use blackjack::blackjack::wager::WithWager;
use blackjack::cards::card::Card;
use blackjack::cards::rank::Rank;
use blackjack::cards::suit::Suit;

#[test]
fn blackjack_hand_it_can_split() {
    let card = Card::from(Suit::Club, Rank::Five);
    let card2 = Card::from(Suit::Club, Rank::Five);

    let mut player = BlackjackHand::new(PlayerType::Player);
    let mut dealer = BlackjackHand::new(PlayerType::Dealer);

    player.add_card(card);
    player.add_card(card2);

    dealer.add_card(card);
    dealer.add_card(card2);

    assert!(player.can_split());
    assert!(!dealer.can_split());
}

#[test]
fn blackjack_hand_it_does_split() {
    let card1 = Card::from(Suit::Club, Rank::Eight);
    let card2 = Card::from(Suit::Club, Rank::Eight);

    let mut hand = BlackjackHand::new(PlayerType::Player);

    hand.add_card(card1);
    hand.add_card(card2);

    let hands = hand.split();

    assert!(hands.is_some());

    let hands = hands.unwrap();
    let hand1 = hands.get(0).unwrap();
    let hand2 = hands.get(1).unwrap();

    assert_eq!(hand1.get_card_count(), 1);
    assert_eq!(hand2.get_card_count(), 1);

    let card1 = hand1.get_cards().first().unwrap();
    let card2 = hand2.get_cards().first().unwrap();

    assert_eq!(card1, card2);
}

#[test]
fn blackjack_hand_can_double_down() {
    let card1 = Card::from(Suit::Club, Rank::Five);
    let card2 = Card::from(Suit::Club, Rank::Six);

    let player = BlackjackHand::with_cards(PlayerType::Player, vec![card1, card2]);
    let dealer = BlackjackHand::with_cards(PlayerType::Dealer, vec![card1, card2]);

    assert!(player.can_double_down());
    assert!(!dealer.can_double_down());
}

#[test]
fn can_hit_player() {
    let card1 = Card::from(Suit::Club, Rank::Five);
    let card2 = Card::from(Suit::Club, Rank::Seven);

    let mut player = BlackjackHand::with_cards(PlayerType::Player, vec![card1, card2]);

    assert!(player.can_hit());

    let card3 = Card::from(Suit::Club, Rank::King);
    player.add_card(card3);

    assert!(!player.can_hit());
}

#[test]
fn can_hit_dealer() {
    let card1 = Card::from(Suit::Club, Rank::Three);
    let card2 = Card::from(Suit::Club, Rank::Four);

    let mut dealer = BlackjackHand::with_cards(PlayerType::Dealer, vec![card1, card2]);

    assert!(dealer.can_hit()); // 7

    let card3 = Card::from(Suit::Club, Rank::King);
    dealer.add_card(card3);

    assert!(!dealer.can_hit()); // 17

    dealer.reset();

    let card1 = Card::from(Suit::Club, Rank::Ace);
    let card2 = Card::from(Suit::Club, Rank::Six);

    dealer.add_cards(vec![card1, card2]);

    assert!(dealer.can_hit()); // soft 17

    dealer.add_card(card3);

    assert!(!dealer.can_hit()); // hard 17
}

#[test]
fn split_consumes_the_original_cards_and_owners_are_players() {
    let card1 = Card::from(Suit::Heart, Rank::Nine);
    let card2 = Card::from(Suit::Heart, Rank::Nine);

    let mut hand = BlackjackHand::new(PlayerType::Player);
    hand.add_card(card1);
    hand.add_card(card2);

    let hands = hand.split().unwrap();
    assert_eq!(hand.get_card_count(), 0);
    assert!(!hands[0].is_dealer());
    assert!(!hands[1].is_dealer());
    assert_eq!(*hands[0].get_cards().first().unwrap(), card1);
    assert_eq!(*hands[1].get_cards().first().unwrap(), card2);

    let mut short = BlackjackHand::new(PlayerType::Player);
    short.add_card(card1);
    assert!(short.split().is_none());
}

#[test]
fn result_state_setters_store_the_outcome() {
    let mut hand = BlackjackHand::new(PlayerType::Player);
    assert!(!hand.did_win());

    hand.set_won();
    assert!(matches!(hand.get_result_state(), ResultsState::Won));
    assert!(hand.did_win());

    hand.set_natural();
    assert!(hand.did_win());

    hand.set_busted();
    assert!(!hand.did_win());

    hand.set_lost();
    assert!(!hand.did_win());

    hand.set_pushed();
    assert!(matches!(hand.get_result_state(), ResultsState::Pushed));
}

#[test]
fn wager_is_stored_added_and_reset() {
    let mut hand = BlackjackHand::new(PlayerType::Player);
    assert_eq!(hand.get_wagered_value(), 0);

    hand.set_wagered_value(150);
    assert_eq!(hand.get_wagered_value(), 150);

    hand.add_wager_to_wagered_value(50);
    assert_eq!(hand.get_wagered_value(), 200);

    hand.reset_wagered_value();
    assert_eq!(hand.get_wagered_value(), 0);
}
