use vstd::prelude::*;

use crate::cards::card::Card;
use crate::cards::rank::{all_ranks, Rank};
use crate::cards::shuffleable::Shuffleable;
use crate::cards::suit::{all_suits, Suit};

verus! {

/// The canonical card at position `i` of a fresh deck: suits in
/// declaration order, and within each suit the ranks in declaration
/// order.
pub open spec fn deck_card(i: int) -> Card {
    Card { suit: all_suits()[i / 13], rank: all_ranks()[i % 13] }
}

/// One ordered set of the 52 canonical cards, exactly one of each
/// (rank, suit) pair, freshly constructed in canonical order.
pub struct Deck {
    pub cards: Vec<Card>,
}

impl Deck {
    pub fn new() -> (d: Deck)
        ensures
            d.cards@.len() == 52,
            forall|i: int| 0 <= i < 52 ==> d.cards@[i] == deck_card(i),
    {
        let suits = Suit::iter();
        let ranks = Rank::iter();
        let mut cards: Vec<Card> = Vec::with_capacity(52);
        let mut s: usize = 0;
        while s < 4
            invariant
                0 <= s <= 4,
                suits@ == all_suits(),
                ranks@ == all_ranks(),
                cards@.len() == 13 * s,
                forall|k: int| 0 <= k < cards@.len() ==> cards@[k] == deck_card(k),
            decreases 4 - s,
        {
            let mut r: usize = 0;
            while r < 13
                invariant
                    0 <= s < 4,
                    0 <= r <= 13,
                    suits@ == all_suits(),
                    ranks@ == all_ranks(),
                    cards@.len() == 13 * s + r,
                    forall|k: int| 0 <= k < cards@.len() ==> cards@[k] == deck_card(k),
                decreases 13 - r,
            {
                cards.push(Card { suit: suits[s], rank: ranks[r] });
                proof {
                    let k: int = cards@.len() - 1;
                    vstd::arithmetic::div_mod::lemma_fundamental_div_mod_converse(
                        k,
                        13,
                        s as int,
                        r as int,
                    );
                }
                r += 1;
            }
            s += 1;
        }
        Deck { cards }
    }
}

/// Law: the 52 canonical deck positions name pairwise distinct cards,
/// so a fresh deck holds exactly one card of each (rank, suit) pair.
pub proof fn lemma_deck_card_distinct(i: int, j: int)
    requires
        0 <= i < 52,
        0 <= j < 52,
        i != j,
    ensures
        deck_card(i) != deck_card(j),
{
    vstd::arithmetic::div_mod::lemma_fundamental_div_mod(i, 13);
    vstd::arithmetic::div_mod::lemma_fundamental_div_mod(j, 13);
    vstd::arithmetic::div_mod::lemma_mod_bound(i, 13);
    vstd::arithmetic::div_mod::lemma_mod_bound(j, 13);
    assert(0 <= i / 13 < 4);
    assert(0 <= j / 13 < 4);
    if deck_card(i) == deck_card(j) {
        assert(all_suits()[i / 13] == all_suits()[j / 13]);
        assert(all_ranks()[i % 13] == all_ranks()[j % 13]);
        assert forall|a: int, b: int|
            0 <= a < 4 && 0 <= b < 4 && a != b implies all_suits()[a] != all_suits()[b] by {
            assert(all_suits()[0] == Suit::Spade);
            assert(all_suits()[1] == Suit::Heart);
            assert(all_suits()[2] == Suit::Diamond);
            assert(all_suits()[3] == Suit::Club);
        }
        assert forall|a: int, b: int|
            0 <= a < 13 && 0 <= b < 13 && a != b implies all_ranks()[a] != all_ranks()[b] by {
            assert(all_ranks()[0] == Rank::Ace);
            assert(all_ranks()[1] == Rank::Two);
            assert(all_ranks()[2] == Rank::Three);
            assert(all_ranks()[3] == Rank::Four);
            assert(all_ranks()[4] == Rank::Five);
            assert(all_ranks()[5] == Rank::Six);
            assert(all_ranks()[6] == Rank::Seven);
            assert(all_ranks()[7] == Rank::Eight);
            assert(all_ranks()[8] == Rank::Nine);
            assert(all_ranks()[9] == Rank::Ten);
            assert(all_ranks()[10] == Rank::Jack);
            assert(all_ranks()[11] == Rank::Queen);
            assert(all_ranks()[12] == Rank::King);
        }
        assert(i / 13 == j / 13);
        assert(i % 13 == j % 13);
        assert(false);
    }
}

impl Shuffleable for Deck {
    open spec fn held_cards(&self) -> Seq<Card> {
        self.cards@
    }

    open spec fn same_frame(&self, other: &Self) -> bool {
        true
    }

    proof fn frame_refl(a: &Self) {
    }

    proof fn frame_trans(a: &Self, b: &Self, c: &Self) {
    }

    fn shuffle_once(&mut self) {
        crate::cards::shuffleable::shuffle_in_place(&mut self.cards);
    }
}

} // verus!
