use blackjack::blackjack::hand_actions::{HandActions, HandType};
use blackjack::cards::card::Card;
use blackjack::cards::hand::Hand;
use blackjack::cards::rank::Rank;
use blackjack::cards::suit::Suit;

#[test]
fn hand_actions_it_can_split() {
    let card = Card::from(Suit::Club, Rank::Five);
    let card2 = Card::from(Suit::Club, Rank::Five);

    let mut hand = Hand::new();
    hand.add_card(card);
    hand.add_card(card2);

    assert!(HandActions::can_split(&HandType::Player(&hand)));
    assert!(!HandActions::can_split(&HandType::Dealer(&hand)));
}

#[test]
fn hand_actions_it_does_split() {
    let card1 = Card::from(Suit::Club, Rank::Eight);
    let card2 = Card::from(Suit::Club, Rank::Eight);

    let mut hand = Hand::new();
    hand.add_card(card1);
    hand.add_card(card2);

    let hand_type = HandType::Player(&hand);

    let hands = HandActions::split(&hand_type);

    assert!(hands.is_some());

    let hands = hands.unwrap();
    let hand1 = hands.get(0).unwrap();
    let hand2 = hands.get(1).unwrap();

    assert_eq!(hand1.get_card_count(), 1);
    assert_eq!(hand2.get_card_count(), 1);

    let card1 = hand1.get_cards().first().unwrap();
    let card2 = hand2.get_cards().first().unwrap();

    assert_eq!(card1, card2);
}

#[test]
fn hand_actions_can_double_down() {
    let card1 = Card::from(Suit::Club, Rank::Five);
    let card2 = Card::from(Suit::Club, Rank::Six);

    let hand = Hand::with_cards(vec![card1, card2]);
    assert!(HandActions::can_double_down(&HandType::Player(&hand)));
    assert!(!HandActions::can_double_down(&HandType::Dealer(&hand)));
}
