use blackjack::cards::shoe::Shoe;
use blackjack::cards::shuffleable::Shuffleable;

#[test]
fn create_shoe() {
    let shoe = Shoe::new();
    assert_eq!(shoe.cards.len(), 0);
}

#[test]
fn add_deck_to_shoe() {
    let mut shoe = Shoe::new();
    shoe.add_deck();
    assert_eq!(shoe.cards.len(), 52);
}

#[test]
fn can_add_multiple_decks_to_shoe() {
    let mut shoe = Shoe::new();
    shoe.add_deck();
    assert_eq!(shoe.cards.len(), 52);
    shoe.add_deck();
    assert_eq!(shoe.cards.len(), 104);
}

#[test]
fn shoe_with_decks() {
    let shoe = Shoe::with_decks(2);
    assert_eq!(shoe.cards.len(), 52 * 2);
}

#[test]
fn does_shuffle_cards() {
    let mut shoe = Shoe::with_decks(1);

    let cards_before_shuffle = shoe.cards.to_owned();
    assert_eq!(cards_before_shuffle, shoe.cards);

    shoe.shuffle();

    let cards_after_shuffle = shoe.cards.to_owned();
    assert_eq!(cards_after_shuffle, shoe.cards);
    assert_ne!(cards_before_shuffle, cards_after_shuffle);
}

#[test]
fn can_take_card() {
    let mut shoe = Shoe::with_decks(1);

    let card = shoe.take_card();
    let next_card = shoe.take_card();

    assert!(card.is_some());
    assert!(next_card.is_some());
    assert_ne!(card.unwrap(), next_card.unwrap());
    // two of 52 cards dealt
    assert_eq!(shoe.fraction_dealt_permille(), 2 * 1000 / 52);
}

#[test]
fn can_start_round() {
    let mut shoe = Shoe::with_decks(1);

    assert_eq!(shoe.get_cards_in_play().unwrap().len(), 0);

    shoe.start_round();

    assert_eq!(shoe.get_cards_in_play().unwrap().len(), 0);
}

#[test]
fn should_start_round_at_current_index() {
    let mut shoe = Shoe::with_decks(1);

    {
        shoe.take_card();
        shoe.take_card();
        shoe.take_card();
    }

    assert_eq!(shoe.get_cards_in_play().unwrap().len(), 3);

    shoe.start_round();

    // the round-start cursor now matches the dealt cursor
    assert_eq!(shoe.get_cards_in_play().unwrap().len(), 0);
    assert_eq!(shoe.fraction_dealt_permille(), 3 * 1000 / 52);
}

#[test]
fn should_get_cards_in_play() {
    let mut shoe = Shoe::with_decks(1);

    shoe.start_round();

    let card1 = shoe.take_card().unwrap();
    let card2 = shoe.take_card().unwrap();
    let card3 = shoe.take_card().unwrap();
    let taken_cards = vec![card1, card2, card3];

    let in_play_cards = shoe.get_cards_in_play().unwrap();

    assert_eq!(taken_cards.len(), in_play_cards.len());

    for card in in_play_cards {
        assert!(taken_cards.contains(&card));
    }
}

#[test]
fn take_card_exhausts_after_one_deck_of_takes() {
    let mut shoe = Shoe::with_decks(1);

    for _ in 0..52 {
        assert!(shoe.take_card().is_some());
    }
    assert!(shoe.take_card().is_none());
    assert!(shoe.take_card().is_none());
}

#[test]
fn fraction_dealt_is_zero_on_a_fresh_shoe_even_when_empty() {
    let empty = Shoe::with_decks(0);
    assert_eq!(empty.cards.len(), 0);
    assert_eq!(empty.fraction_dealt_permille(), 0);

    let fresh = Shoe::with_decks(2);
    assert_eq!(fresh.fraction_dealt_permille(), 0);

    let bare = Shoe::new();
    assert_eq!(bare.fraction_dealt_permille(), 0);
}

#[test]
fn fraction_dealt_grows_with_the_dealt_cursor() {
    let mut shoe = Shoe::with_decks(1);
    for _ in 0..13 {
        shoe.take_card();
    }
    assert_eq!(shoe.fraction_dealt_permille(), 250);

    for _ in 0..39 {
        shoe.take_card();
    }
    assert_eq!(shoe.fraction_dealt_permille(), 1000);
}

#[test]
fn shuffle_keeps_exactly_the_same_cards() {
    let mut shoe = Shoe::with_decks(1);
    let mut before = shoe.cards.to_owned();

    shoe.shuffle();

    let mut after = shoe.cards.to_owned();
    assert_eq!(after.len(), 52);

    let key = |c: &blackjack::cards::card::Card| format!("{:?}", c);
    before.sort_by_key(key);
    after.sort_by_key(key);
    assert_eq!(before, after);
}
