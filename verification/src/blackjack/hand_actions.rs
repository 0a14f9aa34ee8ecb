use vstd::prelude::*;

use crate::cards::card::Card;
use crate::cards::hand::Hand;

verus! {

/// A bare hand together with its owner kind, for legality checks that
/// do not need a full blackjack hand.
pub enum HandType<'h> {
    Player(&'h Hand),
    Dealer(&'h Hand),
}

impl<'h> HandType<'h> {
    /// The cards of the wrapped hand.
    pub open spec fn cards_of(self) -> Seq<Card> {
        match self {
            HandType::Player(h) => h@,
            HandType::Dealer(h) => h@,
        }
    }

    /// Whether the wrapped hand belongs to a player.
    pub open spec fn is_player_hand(self) -> bool {
        self is Player
    }
}

/// Split and double-down legality on bare hands, by owner kind.
pub struct HandActions {}

impl HandActions {
    /// Split legality: a player hand of exactly two identical cards;
    /// never a dealer hand.
    pub fn can_split(ht: &HandType<'_>) -> (r: bool)
        ensures
            r == (ht.is_player_hand() && ht.cards_of().len() == 2 && ht.cards_of()[0]
                == ht.cards_of()[1]),
    {
        match ht {
            HandType::Dealer(_) => false,
            HandType::Player(hand) => {
                if hand.get_card_count() == 2 {
                    let cards = hand.get_cards();
                    cards[0] == cards[1]
                } else {
                    false
                }
            },
        }
    }

    /// Split a splittable player hand into exactly two one-card hands,
    /// each holding one of the two original cards. The given hand is
    /// only read; the two new hands own copies of its cards.
    pub fn split(ht: &HandType<'_>) -> (r: Option<[Hand; 2]>)
        ensures
            (ht.is_player_hand() && ht.cards_of().len() == 2 && ht.cards_of()[0]
                == ht.cards_of()[1]) ==> {
                &&& r is Some
                &&& r->Some_0@[0]@ == seq![ht.cards_of()[0]]
                &&& r->Some_0@[1]@ == seq![ht.cards_of()[1]]
            },
            !(ht.is_player_hand() && ht.cards_of().len() == 2 && ht.cards_of()[0]
                == ht.cards_of()[1]) ==> r is None,
    {
        if Self::can_split(ht) {
            if let HandType::Player(hand) = ht {
                let cards = hand.get_cards();
                let mut left: Vec<Card> = Vec::new();
                left.push(cards[0]);
                let mut right: Vec<Card> = Vec::new();
                right.push(cards[1]);
                let pair = [Hand::with_cards(left), Hand::with_cards(right)];
                proof {
                    assert(pair@[0]@ =~= seq![ht.cards_of()[0]]);
                    assert(pair@[1]@ =~= seq![ht.cards_of()[1]]);
                }
                return Some(pair);
            }
        }
        None
    }

    /// Double-down legality: a player hand of exactly two cards; never
    /// a dealer hand.
    pub fn can_double_down(ht: &HandType<'_>) -> (r: bool)
        ensures
            r == (ht.is_player_hand() && ht.cards_of().len() == 2),
    {
        match ht {
            HandType::Dealer(_) => false,
            HandType::Player(hand) => hand.get_card_count() == 2,
        }
    }
}

} // verus!
