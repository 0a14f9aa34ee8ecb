use vstd::prelude::*;

use crate::blackjack::blackjack_hand::BlackjackHand;
use crate::cards::bankroll::Bankroll;
use crate::cards::card::Card;

verus! {

/// Whose hand or seat something is: an ordinary player's or the
/// dealer's. Split, double-down and hit legality all turn on this tag.
#[derive(PartialEq, Eq, Structural, Clone, Copy, Debug)]
pub enum PlayerType {
    Player,
    Dealer,
}

/// Relies on uuid's `Uuid::new_v4` for a fresh random version-4
/// identifier, read out as its 128-bit value. The value is random, so
/// nothing is promised of it.
#[verifier::external_body]
fn fresh_player_id() -> u128 {
    uuid::Uuid::new_v4().as_u128()
}

/// How a player stands after the given cards landed, in order, on its
/// current hand: the cards appended there and everything else
/// unchanged.
pub open spec fn received_cards(pre: Player, post: Player, cards: Seq<Card>) -> bool {
    &&& post.id_spec() == pre.id_spec()
    &&& post.name_spec() == pre.name_spec()
    &&& post.bankroll_spec() == pre.bankroll_spec()
    &&& post.player_type_spec() == pre.player_type_spec()
    &&& post.current_hand_spec() == pre.current_hand_spec()
    &&& post.hands_spec().len() == pre.hands_spec().len()
    &&& post.hands_spec()[pre.current_hand_spec()].cards() == pre.hands_spec()[pre.current_hand_spec()].cards() + cards
    &&& crate::blackjack::blackjack_hand::same_but_cards(
        pre.hands_spec()[pre.current_hand_spec()],
        post.hands_spec()[pre.current_hand_spec()],
    )
    &&& forall|i: int|
        0 <= i < pre.hands_spec().len() && i != pre.current_hand_spec() ==> post.hands_spec()[i]
            == pre.hands_spec()[i]
}

/// Receiving no cards changes nothing that `received_cards` tracks.
pub proof fn lemma_received_cards_refl(p: Player)
    requires
        p.wf(),
    ensures
        received_cards(p, p, Seq::<Card>::empty()),
{
    assert(p.hands_spec()[p.current_hand_spec()].cards() + Seq::<Card>::empty()
        =~= p.hands_spec()[p.current_hand_spec()].cards());
}

/// Receiving one batch of cards and then another is receiving their
/// concatenation.
pub proof fn lemma_received_cards_trans(a: Player, b: Player, c: Player, s1: Seq<Card>, s2: Seq<
    Card,
>)
    requires
        a.wf(),
        received_cards(a, b, s1),
        received_cards(b, c, s2),
    ensures
        received_cards(a, c, s1 + s2),
{
    assert(c.hands_spec()[a.current_hand_spec()].cards()
        =~= a.hands_spec()[a.current_hand_spec()].cards() + (s1 + s2));
}

/// One seat at the table: a stable id, a display name, a bankroll,
/// one or more hands (several after a split), and the index of the
/// hand that receives the next card. The dealer is a seat like any
/// other, tagged `Dealer`, with exactly one hand; it never splits,
/// doubles, or wagers.
pub struct Player {
    id: u128,
    bankroll: Bankroll,
    hands: Vec<BlackjackHand>,
    current_hand: usize,
    name: String,
    player_type: PlayerType,
}

impl Player {
    /// The stable unique id.
    pub closed spec fn id_spec(&self) -> u128 {
        self.id
    }

    /// The display name.
    pub closed spec fn name_spec(&self) -> Seq<char> {
        self.name@
    }

    /// The available funds.
    pub closed spec fn bankroll_spec(&self) -> u32 {
        self.bankroll.balance_spec()
    }

    /// The hands, in order.
    pub closed spec fn hands_spec(&self) -> Seq<BlackjackHand> {
        self.hands@
    }

    /// Which hand receives the next card.
    pub closed spec fn current_hand_spec(&self) -> int {
        self.current_hand as int
    }

    /// Whether this seat is the dealer's.
    pub closed spec fn player_type_spec(&self) -> PlayerType {
        self.player_type
    }

    /// Well-formed: there is at least one hand and the current-hand
    /// index selects one of them.
    pub open spec fn wf(&self) -> bool {
        0 <= self.current_hand_spec() < self.hands_spec().len()
    }

    pub fn new(name: String) -> (p: Player)
        ensures
            p.wf(),
            p.name_spec() == name@,
            p.player_type_spec() == PlayerType::Player,
            p.bankroll_spec() == 0,
            p.current_hand_spec() == 0,
            p.hands_spec().len() == 1,
            p.hands_spec()[0].owner() == PlayerType::Player,
            p.hands_spec()[0].is_fresh(),
    {
        let mut hands: Vec<BlackjackHand> = Vec::new();
        hands.push(BlackjackHand::new(PlayerType::Player));
        Player {
            id: fresh_player_id(),
            bankroll: Bankroll::new(),
            hands,
            current_hand: 0,
            player_type: PlayerType::Player,
            name,
        }
    }

    pub fn new_dealer(name: String) -> (p: Player)
        ensures
            p.wf(),
            p.name_spec() == name@,
            p.player_type_spec() == PlayerType::Dealer,
            p.bankroll_spec() == 0,
            p.current_hand_spec() == 0,
            p.hands_spec().len() == 1,
            p.hands_spec()[0].owner() == PlayerType::Dealer,
            p.hands_spec()[0].is_fresh(),
    {
        let mut hands: Vec<BlackjackHand> = Vec::new();
        hands.push(BlackjackHand::new(PlayerType::Dealer));
        Player {
            id: fresh_player_id(),
            bankroll: Bankroll::new(),
            hands,
            current_hand: 0,
            player_type: PlayerType::Dealer,
            name,
        }
    }

    pub fn get_id(&self) -> (r: u128)
        ensures
            r == self.id_spec(),
    {
        self.id
    }

    pub fn get_name(&self) -> (r: &String)
        ensures
            r@ == self.name_spec(),
    {
        &self.name
    }

    /// The hand that the current-hand index selects, or nothing if the
    /// index is out of range (which correct use never produces, but is
    /// checked rather than assumed).
    pub fn get_current_hand(&self) -> (r: Option<&BlackjackHand>)
        ensures
            self.wf() ==> {
                &&& r is Some
                &&& *r->Some_0 == self.hands_spec()[self.current_hand_spec()]
            },
            !self.wf() ==> r is None,
    {
        if self.current_hand < self.hands.len() {
            Some(&self.hands[self.current_hand])
        } else {
            None
        }
    }

    /// Append `card` to the current hand. Fails, changing nothing,
    /// exactly when the current-hand index selects no hand: that is a
    /// bookkeeping fault, reported distinctly from an empty shoe.
    pub fn push_card_to_current_hand(&mut self, card: Card) -> (r: Result<(), &'static str>)
        ensures
            final(self).id_spec() == old(self).id_spec(),
            final(self).name_spec() == old(self).name_spec(),
            final(self).bankroll_spec() == old(self).bankroll_spec(),
            final(self).player_type_spec() == old(self).player_type_spec(),
            final(self).current_hand_spec() == old(self).current_hand_spec(),
            final(self).hands_spec().len() == old(self).hands_spec().len(),
            old(self).wf() ==> {
                &&& r is Ok
                &&& final(self).wf()
                &&& received_cards(*old(self), *final(self), seq![card])
            },
            !old(self).wf() ==> {
                &&& r is Err
                &&& final(self).hands_spec() == old(self).hands_spec()
            },
    {
        if self.current_hand < self.hands.len() {
            self.hands[self.current_hand].add_card(card);
            proof {
                assert(self.hands@[old(self).current_hand_spec()].cards() =~= old(
                    self,
                ).hands_spec()[old(self).current_hand_spec()].cards() + seq![card]);
            }
            Ok(())
        } else {
            Err("Could not add card")
        }
    }

    pub fn get_available_funds(&self) -> (r: u32)
        ensures
            r == self.bankroll_spec(),
    {
        self.bankroll.get_bankroll()
    }

    pub fn get_player_type(&self) -> (r: &PlayerType)
        ensures
            *r == self.player_type_spec(),
    {
        &self.player_type
    }

    /// Add funds to the bankroll; an addition past the integer limit
    /// is dropped and the bankroll stays unchanged.
    pub fn add_funds(&mut self, funds: u32)
        ensures
            final(self).id_spec() == old(self).id_spec(),
            final(self).name_spec() == old(self).name_spec(),
            final(self).player_type_spec() == old(self).player_type_spec(),
            final(self).current_hand_spec() == old(self).current_hand_spec(),
            final(self).hands_spec() == old(self).hands_spec(),
            old(self).bankroll_spec() + funds <= u32::MAX ==> final(self).bankroll_spec() == old(
                self,
            ).bankroll_spec() + funds,
            old(self).bankroll_spec() + funds > u32::MAX ==> final(self).bankroll_spec() == old(
                self,
            ).bankroll_spec(),
    {
        let _ = self.bankroll.add_funds(funds);
    }
}

} // verus!
