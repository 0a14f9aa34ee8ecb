use vstd::prelude::*;

use crate::cards::card::Card;
use crate::cards::deck::{deck_card, Deck};
use crate::cards::shuffleable::Shuffleable;

verus! {

/// A shuffled, multi-deck, ordered card supply with a forward-only
/// dealt cursor and a round-start cursor marking where the current
/// round began drawing.
#[derive(Debug)]
pub struct Shoe {
    pub cards: Vec<Card>,
    curr_index: usize,
    round_index: usize,
}

impl Shoe {
    /// The full card sequence of the shoe, dealt and undealt alike.
    pub closed spec fn cards_seq(&self) -> Seq<Card> {
        self.cards@
    }

    /// The number of cards dealt so far.
    pub closed spec fn dealt(&self) -> int {
        self.curr_index as int
    }

    /// Where the current round began drawing.
    pub closed spec fn round_start(&self) -> int {
        self.round_index as int
    }

    /// Well-formed: the cursors sit within the card sequence in order.
    pub open spec fn wf(&self) -> bool {
        0 <= self.round_start() <= self.dealt() <= self.cards_seq().len()
    }

    pub fn new() -> (s: Shoe)
        ensures
            s.cards_seq().len() == 0,
            s.dealt() == 0,
            s.round_start() == 0,
            s.wf(),
    {
        Shoe { cards: Vec::new(), curr_index: 0, round_index: 0 }
    }

    /// A shoe of `count` concatenated fresh decks, nothing dealt yet.
    /// Zero decks is legal and yields an empty, unusable shoe.
    pub fn with_decks(count: u32) -> (s: Shoe)
        ensures
            s.cards_seq().len() == 52 * count,
            forall|j: int| 0 <= j < s.cards_seq().len() ==> s.cards_seq()[j] == deck_card(j % 52),
            s.dealt() == 0,
            s.round_start() == 0,
            s.wf(),
    {
        let mut cards: Vec<Card> = Vec::new();
        let mut d: u32 = 0;
        while d < count
            invariant
                0 <= d <= count,
                cards@.len() == 52 * d,
                forall|j: int| 0 <= j < cards@.len() ==> cards@[j] == deck_card(j % 52),
            decreases count - d,
        {
            let mut deck = Deck::new();
            let ghost before = cards@;
            cards.append(&mut deck.cards);
            proof {
                assert forall|j: int| 0 <= j < cards@.len() implies cards@[j] == deck_card(
                    j % 52,
                ) by {
                    if j >= before.len() {
                        let i: int = j - 52 * (d as int);
                        vstd::arithmetic::div_mod::lemma_mod_multiples_vanish(d as int, i, 52);
                        vstd::arithmetic::div_mod::lemma_small_mod(i as nat, 52);
                    }
                }
            }
            d += 1;
        }
        Shoe { cards, curr_index: 0, round_index: 0 }
    }

    /// Append one fresh deck to the back of the supply; the cursors do
    /// not move.
    pub fn add_deck(&mut self)
        ensures
            final(self).cards_seq().len() == old(self).cards_seq().len() + 52,
            final(self).cards_seq().subrange(0, old(self).cards_seq().len() as int) == old(self).cards_seq(),
            forall|i: int|
                0 <= i < 52 ==> final(self).cards_seq()[old(self).cards_seq().len() + i] == deck_card(i),
            final(self).dealt() == old(self).dealt(),
            final(self).round_start() == old(self).round_start(),
            old(self).wf() ==> final(self).wf(),
    {
        let mut deck = Deck::new();
        let ghost before = self.cards@;
        self.cards.append(&mut deck.cards);
        proof {
            assert(self.cards@.subrange(0, before.len() as int) =~= before);
        }
    }

    /// Mark that cards dealt from here on belong to the new round.
    pub fn start_round(&mut self)
        ensures
            final(self).cards_seq() == old(self).cards_seq(),
            final(self).dealt() == old(self).dealt(),
            final(self).round_start() == old(self).dealt(),
            old(self).wf() ==> final(self).wf(),
    {
        self.round_index = self.curr_index;
    }

    /// What one take yields: the card at the dealt cursor, or nothing
    /// once the cursor has reached the end of the supply.
    pub open spec fn take_result(&self) -> Option<Card> {
        if self.dealt() < self.cards_seq().len() {
            Some(self.cards_seq()[self.dealt()])
        } else {
            None
        }
    }

    /// Deal the next undealt card, advancing the dealt cursor, or
    /// report the supply exhausted.
    pub fn take_card(&mut self) -> (r: Option<Card>)
        ensures
            r == old(self).take_result(),
            old(self).dealt() < old(self).cards_seq().len() ==> {
                &&& r == Some(old(self).cards_seq()[old(self).dealt()])
                &&& final(self).dealt() == old(self).dealt() + 1
            },
            old(self).dealt() >= old(self).cards_seq().len() ==> {
                &&& r is None
                &&& final(self).dealt() == old(self).dealt()
            },
            final(self).cards_seq() == old(self).cards_seq(),
            final(self).round_start() == old(self).round_start(),
            old(self).wf() ==> final(self).wf(),
    {
        if self.curr_index < self.cards.len() {
            let card = self.cards[self.curr_index];
            self.curr_index += 1;
            Some(card)
        } else {
            None
        }
    }

    /// The cards dealt since the round started, or nothing if the
    /// cursors are out of order (which correct use never produces, but
    /// is checked rather than assumed).
    pub fn get_cards_in_play(&mut self) -> (r: Option<Vec<Card>>)
        requires
            old(self).wf(),
        ensures
            *final(self) == *old(self),
            old(self).dealt() >= old(self).round_start() ==> {
                &&& r is Some
                &&& r->Some_0@ == old(self).cards_seq().subrange(
                    old(self).round_start(),
                    old(self).dealt(),
                )
            },
            old(self).dealt() < old(self).round_start() ==> r is None,
    {
        if self.curr_index >= self.round_index {
            let mut in_play: Vec<Card> = Vec::new();
            let mut i: usize = self.round_index;
            while i < self.curr_index
                invariant
                    self.round_index <= i <= self.curr_index,
                    self.curr_index <= self.cards@.len(),
                    in_play@ == self.cards@.subrange(self.round_index as int, i as int),
                decreases self.curr_index - i,
            {
                in_play.push(self.cards[i]);
                proof {
                    assert(self.cards@.subrange(self.round_index as int, i + 1)
                        =~= self.cards@.subrange(self.round_index as int, i as int).push(
                        self.cards@[i as int],
                    ));
                }
                i += 1;
            }
            Some(in_play)
        } else {
            None
        }
    }

    /// How much of the supply has been dealt, in thousandths: dealt
    /// cursor over total length, and 0 for an empty shoe rather than a
    /// division error.
    pub fn fraction_dealt_permille(&self) -> (r: u32)
        requires
            self.wf(),
        ensures
            self.cards_seq().len() == 0 ==> r == 0,
            self.cards_seq().len() > 0 ==> r == self.dealt() * 1000 / (self.cards_seq().len() as int),
    {
        let len = self.cards.len();
        if len == 0 {
            0
        } else {
            let scaled: u128 = (self.curr_index as u128) * 1000;
            let frac: u128 = scaled / (len as u128);
            proof {
                vstd::arithmetic::div_mod::lemma_div_is_ordered(
                    self.dealt() * 1000,
                    (self.cards@.len() as int) * 1000,
                    self.cards@.len() as int,
                );
                vstd::arithmetic::div_mod::lemma_div_multiples_vanish(
                    1000,
                    self.cards@.len() as int,
                );
            }
            frac as u32
        }
    }
}

/// Law: a shoe deals a card on every take while fewer cards have been
/// dealt than it holds, and signals exhaustion, rather than failing,
/// on the take after the last card. Since `take_card` advances the
/// dealt cursor by exactly one per card granted, a shoe fresh from
/// `with_decks(decks)` (cursor 0, `52 * decks` cards) grants exactly
/// `52 * decks` cards and reports the next take exhausted.
pub proof fn lemma_shoe_exhaustion(s: Shoe)
    requires
        s.wf(),
    ensures
        s.take_result() is Some <==> s.dealt() < s.cards_seq().len(),
        s.take_result() is None <==> s.dealt() == s.cards_seq().len(),
{
}

impl Shuffleable for Shoe {
    open spec fn held_cards(&self) -> Seq<Card> {
        self.cards_seq()
    }

    open spec fn same_frame(&self, other: &Self) -> bool {
        &&& self.dealt() == other.dealt()
        &&& self.round_start() == other.round_start()
        &&& self.cards_seq().len() == other.cards_seq().len()
    }

    proof fn frame_refl(a: &Self) {
    }

    proof fn frame_trans(a: &Self, b: &Self, c: &Self) {
    }

    fn shuffle_once(&mut self) {
        crate::cards::shuffleable::shuffle_in_place(&mut self.cards);
    }
}

} // verus!
