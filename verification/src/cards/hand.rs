use vstd::prelude::*;

use crate::cards::card::Card;

verus! {

/// An ordered sequence of cards held by one participant. Order matters
/// only for display; the blackjack worth of the cards does not depend
/// on it.
#[derive(Clone)]
pub struct Hand {
    cards: Vec<Card>,
}

impl View for Hand {
    type V = Seq<Card>;

    closed spec fn view(&self) -> Seq<Card> {
        self.cards@
    }
}

impl Default for Hand {
    fn default() -> (h: Hand)
        ensures
            h@ == Seq::<Card>::empty(),
    {
        Hand { cards: Vec::new() }
    }
}

impl Hand {
    pub fn new() -> (h: Hand)
        ensures
            h@ == Seq::<Card>::empty(),
    {
        Hand { cards: Vec::new() }
    }

    pub fn with_cards(cards: Vec<Card>) -> (h: Hand)
        ensures
            h@ == cards@,
    {
        Hand { cards }
    }

    pub fn add_card(&mut self, card: Card)
        ensures
            final(self)@ == old(self)@.push(card),
    {
        self.cards.push(card)
    }

    pub fn get_cards(&self) -> (r: &Vec<Card>)
        ensures
            r@ == self@,
    {
        &self.cards
    }

    pub fn reset_cards(&mut self)
        ensures
            final(self)@ == Seq::<Card>::empty(),
    {
        self.cards.clear()
    }

    pub fn get_card_count(&self) -> (n: usize)
        ensures
            n == self@.len(),
    {
        self.cards.len()
    }

    pub fn add_cards(&mut self, cards: Vec<Card>)
        ensures
            final(self)@ == old(self)@ + cards@,
    {
        let mut more = cards;
        self.cards.append(&mut more);
    }
}

} // verus!
