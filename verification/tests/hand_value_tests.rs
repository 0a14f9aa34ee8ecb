use blackjack::blackjack::hand_value::{HandValue, WithHandValue};
use blackjack::cards::card::Card;
use blackjack::cards::hand::Hand;
use blackjack::cards::rank::Rank;
use blackjack::cards::suit::Suit;

#[test]
fn test_card_values_single_single() {
    let card1 = Card::from(Suit::Club, Rank::Three);
    let card2 = Card::from(Suit::Club, Rank::Two);

    let mut hand = Hand::new();
    hand.add_card(card1);
    hand.add_card(card2);

    assert_eq!(hand.get_value().unwrap(), HandValue::V(5));
}

#[test]
fn test_card_values_single_ace() {
    let mut hand = Hand::new();

    let card1 = Card::from(Suit::Club, Rank::Four);
    let card2 = Card::from(Suit::Club, Rank::Ace);

    hand.add_card(card1);
    hand.add_card(card2);

    assert_eq!(hand.get_value().unwrap(), HandValue::Ace(5, 15));
}

#[test]
fn test_card_values_ace_single() {
    let mut hand = Hand::new();

    let card1 = Card::from(Suit::Club, Rank::Six);
    let card2 = Card::from(Suit::Club, Rank::Ace);

    hand.add_card(card2);
    hand.add_card(card1);

    assert_eq!(hand.get_value().unwrap(), HandValue::Ace(7, 17));
}

#[test]
fn test_card_values_ace_ace() {
    let mut hand = Hand::new();

    let card1 = Card::from(Suit::Club, Rank::Ace);
    let card2 = Card::from(Suit::Club, Rank::Ace);

    hand.add_card(card2);
    hand.add_card(card1);

    assert_eq!(hand.get_value().unwrap(), HandValue::Ace(2, 12));

    let card3 = Card::from(Suit::Club, Rank::Three);

    hand.add_card(card3);

    assert_eq!(hand.get_value().unwrap(), HandValue::Ace(5, 15));
}

#[test]
fn test_reduces_bust_with_ace_to_single_card() {
    let mut hand = Hand::new();

    let card1 = Card::from(Suit::Club, Rank::Ace);
    let card2 = Card::from(Suit::Club, Rank::Eight);

    hand.add_card(card2);
    hand.add_card(card1);

    assert_eq!(hand.get_value().unwrap(), HandValue::Ace(9, 19));

    let card3 = Card::from(Suit::Club, Rank::Ace);

    hand.add_card(card3);
    assert_eq!(hand.get_value().unwrap(), HandValue::Ace(10, 20));

    let card4 = Card::from(Suit::Club, Rank::Four);
    hand.add_card(card4);

    assert_eq!(hand.get_value().unwrap(), HandValue::V(14));

    let card5 = Card::from(Suit::Club, Rank::Ace);
    hand.add_card(card5);

    assert_eq!(hand.get_value().unwrap(), HandValue::V(15));
}

#[test]
fn test_can_bust() {
    let mut hand = Hand::new();

    let card1 = Card::from(Suit::Club, Rank::Ten);
    let card2 = Card::from(Suit::Club, Rank::Eight);
    let card3 = Card::from(Suit::Club, Rank::Ace);
    let card4 = Card::from(Suit::Club, Rank::Five);

    hand.add_card(card1);
    hand.add_card(card2);

    assert_eq!(hand.get_value().unwrap(), HandValue::V(18));

    hand.add_card(card3);

    assert_eq!(hand.get_value().unwrap(), HandValue::V(19));

    hand.add_card(card4);

    assert_eq!(hand.get_value().unwrap(), HandValue::Bust(24));
}

#[test]
fn test_hand_value_ace_tuple_low_first_high_second() {
    let card1 = Card::from(Suit::Club, Rank::Eight);
    let card2 = Card::from(Suit::Club, Rank::Ace);

    let mut hand = Hand::with_cards(vec![card1, card2]);
    assert_eq!(hand.get_value().unwrap(), HandValue::Ace(9, 19));

    hand.reset_cards();

    let mut hand = Hand::with_cards(vec![card1, card2]);
    assert_eq!(hand.get_value().unwrap(), HandValue::Ace(9, 19));

    hand.reset_cards();

    let mut hand = Hand::new();
    hand.add_card(card1);
    hand.add_card(card2);
    assert_eq!(hand.get_value().unwrap(), HandValue::Ace(9, 19));

    hand.reset_cards();

    let mut hand = Hand::new();
    hand.add_card(card2);
    hand.add_card(card1);
    assert_eq!(hand.get_value().unwrap(), HandValue::Ace(9, 19));
}

#[test]
fn test_empty_is_none() {
    let hand = Hand::new();

    assert!(hand.get_value().is_none());
}

#[test]
fn two_aces_and_nine_collapse_to_soft_eleven_twentyone() {
    let mut hand = Hand::new();
    hand.add_card(Card::from(Suit::Club, Rank::Ace));
    hand.add_card(Card::from(Suit::Heart, Rank::Ace));
    hand.add_card(Card::from(Suit::Club, Rank::Nine));

    assert_eq!(hand.get_value().unwrap(), HandValue::Ace(11, 21));
}

#[test]
fn value_does_not_depend_on_card_order() {
    let two = Card::from(Suit::Club, Rank::Two);
    let three = Card::from(Suit::Heart, Rank::Three);
    let king = Card::from(Suit::Spade, Rank::King);

    let forward = Hand::with_cards(vec![two, three, king]);
    let backward = Hand::with_cards(vec![king, three, two]);
    let mixed = Hand::with_cards(vec![three, king, two]);

    assert_eq!(forward.get_value().unwrap(), HandValue::V(15));
    assert_eq!(backward.get_value().unwrap(), HandValue::V(15));
    assert_eq!(mixed.get_value().unwrap(), HandValue::V(15));

    let ace = Card::from(Suit::Club, Rank::Ace);
    let six = Card::from(Suit::Heart, Rank::Six);
    let soft = Hand::with_cards(vec![ace, six]);
    let soft_rev = Hand::with_cards(vec![six, ace]);
    assert_eq!(soft.get_value().unwrap(), HandValue::Ace(7, 17));
    assert_eq!(soft_rev.get_value().unwrap(), HandValue::Ace(7, 17));
}

#[test]
fn empty_hand_is_distinguished_from_zero_value() {
    let empty = Hand::new();
    assert!(empty.get_value().is_none());
    assert_ne!(empty.get_value(), Some(HandValue::V(0)));
}

#[test]
fn has_ace_and_is_busted_report_the_hand() {
    let mut hand = Hand::new();
    hand.add_card(Card::from(Suit::Club, Rank::King));
    hand.add_card(Card::from(Suit::Heart, Rank::Queen));
    assert!(!hand.has_ace());
    assert!(!hand.is_busted());

    hand.add_card(Card::from(Suit::Club, Rank::Five));
    assert!(hand.is_busted());

    let mut soft = Hand::new();
    soft.add_card(Card::from(Suit::Club, Rank::Ace));
    assert!(soft.has_ace());
    assert!(!soft.is_busted());
}
