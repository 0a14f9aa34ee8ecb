use blackjack::cards::card::Card;
use blackjack::cards::deck::Deck;
use blackjack::cards::hand::Hand;
use blackjack::cards::rank::Rank;
use blackjack::cards::suit::Suit;

#[test]
fn it_does_reset() {
    let card = Card::from(Suit::Club, Rank::Ace);

    let mut hand = Hand::with_cards(vec![card]);

    assert_eq!(hand.get_card_count(), 1);

    hand.reset_cards();

    assert_eq!(hand.get_card_count(), 0);
}

#[test]
fn adding_cards_appends_in_order() {
    let ace = Card::from(Suit::Spade, Rank::Ace);
    let king = Card::from(Suit::Heart, Rank::King);

    let mut hand = Hand::new();
    hand.add_card(ace);
    hand.add_cards(vec![king]);

    let cards = hand.get_cards();
    assert_eq!(cards.len(), 2);
    assert_eq!(cards[0], ace);
    assert_eq!(cards[1], king);
}

#[test]
fn a_fresh_deck_holds_52_distinct_cards() {
    let deck = Deck::new();
    assert_eq!(deck.cards.len(), 52);

    for i in 0..52 {
        for j in 0..i {
            assert_ne!(deck.cards[i], deck.cards[j]);
        }
    }
}

#[test]
fn ranks_and_suits_enumerate_and_label() {
    let ranks = Rank::iter();
    assert_eq!(ranks.len(), 13);
    assert_eq!(ranks[0].as_str(), "A");
    assert_eq!(ranks[9].as_str(), "10");
    assert_eq!(ranks[12].as_str(), "K");

    let suits = Suit::iter();
    assert_eq!(suits.len(), 4);
    assert_eq!(suits[0].as_str(), "\u{2660}");
    assert_eq!(suits[3].as_str(), "\u{2663}");
}
