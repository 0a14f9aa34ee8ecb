use vstd::prelude::*;

use crate::cards::card::Card;
use rand::seq::SliceRandom;

verus! {

/// Relies on rand's `SliceRandom::shuffle`: it permutes the slice in
/// place by element swaps (Fisher-Yates), driven by the thread-local
/// generator, so exactly the same cards remain, in some order.
#[verifier::external_body]
pub(crate) fn shuffle_in_place(cards: &mut Vec<Card>)
    ensures
        final(cards)@.to_multiset() == old(cards)@.to_multiset(),
        final(cards)@.len() == old(cards)@.len(),
{
    let mut rng = rand::thread_rng();
    cards.shuffle(&mut rng);
}

/// A holder of cards that can be shuffled in place: a shuffle keeps
/// exactly the held cards, permuted, and touches nothing else.
pub trait Shuffleable: Sized {
    /// The held cards in order.
    spec fn held_cards(&self) -> Seq<Card>;

    /// What a shuffle must leave untouched besides the cards'
    /// multiset (cursors, counters, and the like).
    spec fn same_frame(&self, other: &Self) -> bool;

    proof fn frame_refl(a: &Self)
        ensures
            a.same_frame(a),
    ;

    proof fn frame_trans(a: &Self, b: &Self, c: &Self)
        requires
            a.same_frame(b),
            b.same_frame(c),
        ensures
            a.same_frame(c),
    ;

    /// One randomized full permutation of all held cards.
    fn shuffle_once(&mut self)
        ensures
            final(self).held_cards().to_multiset() == old(self).held_cards().to_multiset(),
            final(self).held_cards().len() == old(self).held_cards().len(),
            old(self).same_frame(final(self)),
    ;

    /// The given number of independent full permutations of all held
    /// cards.
    fn shuffle_rounds(&mut self, rounds: i32)
        ensures
            final(self).held_cards().to_multiset() == old(self).held_cards().to_multiset(),
            final(self).held_cards().len() == old(self).held_cards().len(),
            old(self).same_frame(final(self)),
    {
        let ghost orig = *old(self);
        proof {
            Self::frame_refl(&orig);
        }
        let mut round: i32 = 0;
        while round < rounds
            invariant
                self.held_cards().to_multiset() == orig.held_cards().to_multiset(),
                self.held_cards().len() == orig.held_cards().len(),
                orig.same_frame(&*self),
            decreases rounds - round,
        {
            let ghost mid = *self;
            self.shuffle_once();
            proof {
                Self::frame_trans(&orig, &mid, &*self);
            }
            round += 1;
        }
    }

    /// Two independent full permutations of the entire card sequence,
    /// dealt and undealt alike.
    fn shuffle(&mut self)
        ensures
            final(self).held_cards().to_multiset() == old(self).held_cards().to_multiset(),
            final(self).held_cards().len() == old(self).held_cards().len(),
            old(self).same_frame(final(self)),
    {
        self.shuffle_rounds(2);
    }
}

} // verus!
