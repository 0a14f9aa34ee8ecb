use vstd::prelude::*;

use crate::cards::rank::Rank;
use crate::cards::suit::Suit;

verus! {

/// One of the 52 canonical playing cards, identified by rank and suit.
/// Equality is by (rank, suit).
#[derive(Copy, Clone, PartialEq, Eq, Structural, Debug, Hash)]
pub struct Card {
    pub rank: Rank,
    pub suit: Suit,
}

impl Card {
    pub fn from(suit: Suit, rank: Rank) -> (c: Card)
        ensures
            c == (Card { rank, suit }),
    {
        Card { suit, rank }
    }
}

} // verus!
