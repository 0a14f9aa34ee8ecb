use vstd::prelude::*;

use crate::blackjack::hand_value::{
    compute_value, spec_hand_value, HandValue, WithHandValue,
};
use crate::blackjack::player::PlayerType;
use crate::blackjack::wager::{Wager, WithWager};
use crate::cards::card::Card;
use crate::cards::hand::Hand;

verus! {

/// The lifecycle of one hand within a round, advanced only by
/// explicit caller action.
#[derive(PartialEq, Eq, Structural, Clone, Copy, Debug)]
pub enum HandState {
    Default,
    WagerPlaced,
    CardsDealt,
    HandPlayed,
}

/// The outcome recorded for a hand once the round resolves it. The
/// hand only stores and reports the outcome; round resolution
/// computes it.
#[derive(PartialEq, Eq, Structural, Clone, Copy, Debug)]
pub enum ResultsState {
    Default,
    Natural,
    Pushed,
    Lost,
    Won,
    Busted,
}

/// One blackjack hand belonging to a player or the dealer: its cards,
/// lifecycle state, recorded outcome, and wager.
pub struct BlackjackHand {
    hand: Hand,
    player_type: PlayerType,
    state: HandState,
    result_state: ResultsState,
    wager: Wager,
}

/// Whether a hand may be split: it belongs to a player, holds exactly
/// two cards, and the two cards are identical by rank and suit. A
/// dealer hand may never split, whatever its cards.
pub open spec fn spec_can_split(owner: PlayerType, cards: Seq<Card>) -> bool {
    &&& owner == PlayerType::Player
    &&& cards.len() == 2
    &&& cards[0] == cards[1]
}

/// Whether a hand may double down: it belongs to a player and holds
/// exactly two cards.
pub open spec fn spec_can_double_down(owner: PlayerType, cards: Seq<Card>) -> bool {
    owner == PlayerType::Player && cards.len() == 2
}

/// Whether a hand may take another card. A player hand hits below a
/// best value of 21. A dealer hand hits below 17 and on soft 17, and
/// stands on hard 17 or more.
pub open spec fn spec_can_hit(owner: PlayerType, v: Option<HandValue>) -> bool {
    match owner {
        PlayerType::Player => match v {
            Some(HandValue::V(n)) => n < 21,
            Some(HandValue::Ace(l, h)) => h < 21,
            _ => false,
        },
        PlayerType::Dealer => match v {
            Some(HandValue::V(n)) => n < 17,
            Some(HandValue::Ace(l, h)) => l <= 17 || h < 17,
            _ => false,
        },
    }
}

/// Two hands that agree on everything but their cards.
pub open spec fn same_but_cards(a: BlackjackHand, b: BlackjackHand) -> bool {
    &&& a.owner() == b.owner()
    &&& a.state_spec() == b.state_spec()
    &&& a.result_spec() == b.result_spec()
    &&& a.wager_spec() == b.wager_spec()
}

impl BlackjackHand {
    /// The held cards in order.
    pub closed spec fn cards(&self) -> Seq<Card> {
        self.hand@
    }

    /// Whose hand this is.
    pub closed spec fn owner(&self) -> PlayerType {
        self.player_type
    }

    /// The hand's lifecycle state.
    pub closed spec fn state_spec(&self) -> HandState {
        self.state
    }

    /// The hand's recorded outcome.
    pub closed spec fn result_spec(&self) -> ResultsState {
        self.result_state
    }

    /// The staked amount.
    pub closed spec fn wager_spec(&self) -> u32 {
        self.wager.amount()
    }

    /// A hand as construction and `reset` leave it: no cards, default
    /// states, no stake.
    pub open spec fn is_fresh(&self) -> bool {
        &&& self.cards() == Seq::<Card>::empty()
        &&& self.state_spec() == HandState::Default
        &&& self.result_spec() == ResultsState::Default
        &&& self.wager_spec() == 0
    }

    pub fn new(player_type: PlayerType) -> (h: BlackjackHand)
        ensures
            h.owner() == player_type,
            h.is_fresh(),
    {
        BlackjackHand {
            player_type,
            hand: Hand::new(),
            state: HandState::Default,
            result_state: ResultsState::Default,
            wager: Wager::new(),
        }
    }

    pub fn with_cards(player_type: PlayerType, cards: Vec<Card>) -> (h: BlackjackHand)
        ensures
            h.owner() == player_type,
            h.cards() == cards@,
            h.state_spec() == HandState::Default,
            h.result_spec() == ResultsState::Default,
            h.wager_spec() == 0,
    {
        BlackjackHand {
            player_type,
            hand: Hand::with_cards(cards),
            state: HandState::Default,
            result_state: ResultsState::Default,
            wager: Wager::new(),
        }
    }

    pub fn get_state(&self) -> (r: &HandState)
        ensures
            *r == self.state_spec(),
    {
        &self.state
    }

    pub fn set_state(&mut self, state: HandState)
        ensures
            final(self).state_spec() == state,
            final(self).cards() == old(self).cards(),
            final(self).owner() == old(self).owner(),
            final(self).result_spec() == old(self).result_spec(),
            final(self).wager_spec() == old(self).wager_spec(),
    {
        self.state = state;
    }

    pub fn add_card(&mut self, card: Card)
        ensures
            final(self).cards() == old(self).cards().push(card),
            final(self).owner() == old(self).owner(),
            final(self).state_spec() == old(self).state_spec(),
            final(self).result_spec() == old(self).result_spec(),
            final(self).wager_spec() == old(self).wager_spec(),
    {
        self.hand.add_card(card)
    }

    pub fn add_cards(&mut self, cards: Vec<Card>)
        ensures
            final(self).cards() == old(self).cards() + cards@,
            final(self).owner() == old(self).owner(),
            final(self).state_spec() == old(self).state_spec(),
            final(self).result_spec() == old(self).result_spec(),
            final(self).wager_spec() == old(self).wager_spec(),
    {
        self.hand.add_cards(cards);
    }

    pub fn get_cards(&self) -> (r: &Vec<Card>)
        ensures
            r@ == self.cards(),
    {
        self.hand.get_cards()
    }

    pub fn get_card_count(&self) -> (n: usize)
        ensures
            n == self.cards().len(),
    {
        self.hand.get_card_count()
    }

    /// Split legality: a player hand of exactly two identical cards;
    /// never a dealer hand.
    pub fn can_split(&self) -> (r: bool)
        ensures
            r == spec_can_split(self.owner(), self.cards()),
    {
        match self.player_type {
            PlayerType::Dealer => false,
            PlayerType::Player => {
                if self.hand.get_card_count() == 2 {
                    let cards = self.hand.get_cards();
                    cards[0] == cards[1]
                } else {
                    false
                }
            },
        }
    }

    /// Split a splittable player hand into exactly two one-card hands,
    /// each owned by a player, each in the fresh state, each holding
    /// one of the two original cards. The original hand's cards are
    /// consumed: ownership of them transfers to the new hands.
    pub fn split(&mut self) -> (r: Option<[BlackjackHand; 2]>)
        ensures
            spec_can_split(old(self).owner(), old(self).cards()) ==> {
                &&& r is Some
                &&& r->Some_0@[0].owner() == PlayerType::Player
                &&& r->Some_0@[1].owner() == PlayerType::Player
                &&& r->Some_0@[0].cards() == seq![old(self).cards()[0]]
                &&& r->Some_0@[1].cards() == seq![old(self).cards()[1]]
                &&& r->Some_0@[0].state_spec() == HandState::Default
                &&& r->Some_0@[1].state_spec() == HandState::Default
                &&& r->Some_0@[0].result_spec() == ResultsState::Default
                &&& r->Some_0@[1].result_spec() == ResultsState::Default
                &&& r->Some_0@[0].wager_spec() == 0
                &&& r->Some_0@[1].wager_spec() == 0
                &&& final(self).cards() == Seq::<Card>::empty()
            },
            !spec_can_split(old(self).owner(), old(self).cards()) ==> {
                &&& r is None
                &&& final(self).cards() == old(self).cards()
            },
            final(self).owner() == old(self).owner(),
            final(self).state_spec() == old(self).state_spec(),
            final(self).result_spec() == old(self).result_spec(),
            final(self).wager_spec() == old(self).wager_spec(),
    {
        if self.can_split() && !self.is_dealer() {
            let cards = self.hand.get_cards();
            let first = cards[0];
            let second = cards[1];
            self.hand.reset_cards();
            let mut left: Vec<Card> = Vec::new();
            left.push(first);
            let mut right: Vec<Card> = Vec::new();
            right.push(second);
            let pair = [
                BlackjackHand::with_cards(PlayerType::Player, left),
                BlackjackHand::with_cards(PlayerType::Player, right),
            ];
            proof {
                assert(pair@[0].cards() =~= seq![old(self).cards()[0]]);
                assert(pair@[1].cards() =~= seq![old(self).cards()[1]]);
            }
            return Some(pair);
        }
        None
    }

    /// Double-down legality: a player hand of exactly two cards; never
    /// a dealer hand.
    pub fn can_double_down(&self) -> (r: bool)
        ensures
            r == spec_can_double_down(self.owner(), self.cards()),
    {
        match &self.player_type {
            PlayerType::Dealer => false,
            PlayerType::Player => self.hand.get_card_count() == 2,
        }
    }

    /// Hit legality: a player hand below a best value of 21; a dealer
    /// hand below 17, hitting soft 17 and standing on hard 17.
    pub fn can_hit(&self) -> (r: bool)
        ensures
            r == spec_can_hit(self.owner(), spec_hand_value(self.cards())),
    {
        match self.player_type {
            PlayerType::Player => match compute_value(self.hand.get_cards()) {
                Some(HandValue::V(n)) => n < 21,
                Some(HandValue::Ace(_, high)) => high < 21,
                _ => false,
            },
            PlayerType::Dealer => match compute_value(self.hand.get_cards()) {
                Some(HandValue::V(n)) => n < 17,
                Some(HandValue::Ace(low, high)) => low <= 17 || high < 17,
                _ => false,
            },
        }
    }

    pub fn is_dealer(&self) -> (r: bool)
        ensures
            r == (self.owner() == PlayerType::Dealer),
    {
        self.player_type == PlayerType::Dealer
    }

    /// Clear cards, lifecycle state, recorded outcome, and wager back
    /// to their initial values, keeping the owner; used between
    /// rounds.
    pub fn reset(&mut self)
        ensures
            final(self).owner() == old(self).owner(),
            final(self).is_fresh(),
    {
        self.hand.reset_cards();
        self.state = HandState::Default;
        self.result_state = ResultsState::Default;
        self.wager.reset_wager();
    }
}

/// Storage of a hand's recorded outcome, with shorthand setters for
/// each outcome the round resolution can assign.
pub trait ResultState {
    /// The recorded outcome.
    spec fn result_view(&self) -> ResultsState;

    fn set_result_state(&mut self, state: ResultsState)
        ensures
            final(self).result_view() == state,
    ;

    fn get_result_state(&self) -> (r: &ResultsState)
        ensures
            *r == self.result_view(),
    ;

    fn set_natural(&mut self)
        ensures
            final(self).result_view() == ResultsState::Natural,
    {
        self.set_result_state(ResultsState::Natural);
    }

    fn set_busted(&mut self)
        ensures
            final(self).result_view() == ResultsState::Busted,
    {
        self.set_result_state(ResultsState::Busted);
    }

    fn set_lost(&mut self)
        ensures
            final(self).result_view() == ResultsState::Lost,
    {
        self.set_result_state(ResultsState::Lost);
    }

    fn set_won(&mut self)
        ensures
            final(self).result_view() == ResultsState::Won,
    {
        self.set_result_state(ResultsState::Won);
    }

    fn set_pushed(&mut self)
        ensures
            final(self).result_view() == ResultsState::Pushed,
    {
        self.set_result_state(ResultsState::Pushed);
    }

    /// Whether the recorded outcome pays the hand: an ordinary win or
    /// a natural.
    fn did_win(&self) -> (r: bool)
        ensures
            r == (self.result_view() == ResultsState::Won || self.result_view()
                == ResultsState::Natural),
    {
        match *self.get_result_state() {
            ResultsState::Won => true,
            ResultsState::Natural => true,
            _ => false,
        }
    }
}

impl ResultState for BlackjackHand {
    open spec fn result_view(&self) -> ResultsState {
        self.result_spec()
    }

    fn set_result_state(&mut self, state: ResultsState) {
        self.result_state = state;
    }

    fn get_result_state(&self) -> (r: &ResultsState) {
        &self.result_state
    }
}

impl WithWager for BlackjackHand {
    open spec fn wager_amount(&self) -> u32 {
        self.wager_spec()
    }

    fn get_wager(&self) -> (r: &Wager) {
        &self.wager
    }

    /// Placing a stake also advances the hand into the wager-placed
    /// lifecycle state.
    fn set_wagered_value(&mut self, wager: u32) {
        self.wager.set_wager(wager);
        self.set_state(HandState::WagerPlaced)
    }

    fn reset_wagered_value(&mut self) {
        self.wager.reset_wager()
    }

    fn add_wager_to_wagered_value(&mut self, wager: u32) {
        self.wager.add_wager(wager);
    }
}

impl WithHandValue for BlackjackHand {
    open spec fn cards_view(&self) -> Seq<Card> {
        self.cards()
    }

    fn get_cards(&self) -> (r: &Vec<Card>) {
        self.hand.get_cards()
    }
}

} // verus!
