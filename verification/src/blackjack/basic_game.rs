use vstd::prelude::*;

use crate::blackjack::player::{received_cards, Player, PlayerType};
use crate::cards::card::Card;
use crate::cards::shoe::Shoe;
use crate::cards::shuffleable::Shuffleable;

verus! {

/// Why dealing failed: the shoe ran out of cards, or a card could not
/// be attached to a hand (a bookkeeping fault). The two are kept
/// distinct so a caller can tell "we ran out of cards" from "our own
/// bookkeeping is broken".
#[derive(PartialEq, Eq, Structural, Clone, Copy, Debug)]
pub enum DealingError {
    TakingCardFromShoe,
    PushCardToPlayer,
}

impl DealingError {
    /// A short description of the failure.
    pub fn message(&self) -> (r: &'static str)
        ensures
            *self == DealingError::TakingCardFromShoe ==> r@ == "Failed to take card from shoe"@,
            *self == DealingError::PushCardToPlayer ==> r@
                == "Failed to push card to player's current hand"@,
    {
        match *self {
            DealingError::TakingCardFromShoe => "Failed to take card from shoe",
            DealingError::PushCardToPlayer => "Failed to push card to player's current hand",
        }
    }
}

/// Every player in the sequence is well-formed.
pub open spec fn players_wf(players: Seq<Player>) -> bool {
    forall|i: int| 0 <= i < players.len() ==> players[i].wf()
}

/// The cards, in deal order, that the recipient with deal positions
/// `p1` and `p2` receives when only the first `avail` deal positions
/// from cursor `c` of `cards` can be served.
pub open spec fn dealt_to(cards: Seq<Card>, c: int, avail: int, p1: int, p2: int) -> Seq<Card> {
    if p2 < avail {
        seq![cards[c + p1], cards[c + p2]]
    } else if p1 < avail {
        seq![cards[c + p1]]
    } else {
        Seq::<Card>::empty()
    }
}

/// Deal one card from the shoe to each player in registration order,
/// stopping at the first failure; players past the failure point are
/// left unchanged.
pub(crate) fn deal_single_round(shoe: &mut Shoe, players: &mut Vec<Player>) -> (r: Result<
    (),
    DealingError,
>)
    requires
        old(shoe).wf(),
        players_wf(old(players)@),
    ensures
        final(shoe).cards_seq() == old(shoe).cards_seq(),
        final(shoe).round_start() == old(shoe).round_start(),
        final(shoe).wf(),
        final(players)@.len() == old(players)@.len(),
        players_wf(final(players)@),
        ({
            let c = old(shoe).dealt();
            let k = old(shoe).cards_seq().len() - c;
            let n = old(players)@.len() as int;
            let m = if k < n {
                k
            } else {
                n
            };
            &&& (r is Ok <==> k >= n)
            &&& final(shoe).dealt() == c + m
            &&& (r is Err ==> r == Err::<(), DealingError>(DealingError::TakingCardFromShoe)
                && final(shoe).dealt() == final(shoe).cards_seq().len())
            &&& forall|i: int|
                0 <= i < m ==> received_cards(
                    old(players)@[i],
                    final(players)@[i],
                    seq![old(shoe).cards_seq()[c + i]],
                )
            &&& forall|i: int| m <= i < n ==> final(players)@[i] == old(players)@[i]
        }),
{
    let mut idx: usize = 0;
    while idx < players.len()
        invariant
            0 <= idx <= players@.len(),
            players@.len() == old(players)@.len(),
            shoe.cards_seq() == old(shoe).cards_seq(),
            shoe.round_start() == old(shoe).round_start(),
            shoe.wf(),
            shoe.dealt() == old(shoe).dealt() + idx,
            players_wf(players@),
            forall|i: int|
                0 <= i < idx ==> received_cards(
                    old(players)@[i],
                    players@[i],
                    seq![old(shoe).cards_seq()[old(shoe).dealt() + i]],
                ),
            forall|i: int| idx <= i < players@.len() ==> players@[i] == old(players)@[i],
        decreases players@.len() - idx,
    {
        match shoe.take_card() {
            None => {
                return Err(DealingError::TakingCardFromShoe);
            },
            Some(card) => {
                match players[idx].push_card_to_current_hand(card) {
                    Ok(_) => {},
                    Err(_) => {
                        return Err(DealingError::PushCardToPlayer);
                    },
                }
            },
        }
        idx += 1;
    }
    Ok(())
}

/// Deal one card from the shoe to the dealer.
pub(crate) fn deal_to_dealer(shoe: &mut Shoe, dealer: &mut Player) -> (r: Result<
    (),
    DealingError,
>)
    requires
        old(shoe).wf(),
        old(dealer).wf(),
    ensures
        final(shoe).cards_seq() == old(shoe).cards_seq(),
        final(shoe).round_start() == old(shoe).round_start(),
        final(shoe).wf(),
        final(dealer).wf(),
        ({
            let c = old(shoe).dealt();
            let k = old(shoe).cards_seq().len() - c;
            &&& (r is Ok <==> k >= 1)
            &&& (r is Ok ==> final(shoe).dealt() == c + 1 && received_cards(
                *old(dealer),
                *final(dealer),
                seq![old(shoe).cards_seq()[c]],
            ))
            &&& (r is Err ==> r == Err::<(), DealingError>(DealingError::TakingCardFromShoe)
                && final(shoe).dealt() == c && c == old(shoe).cards_seq().len() && *final(dealer)
                == *old(dealer))
        }),
{
    match shoe.take_card() {
        Some(card) => {
            match dealer.push_card_to_current_hand(card) {
                Ok(_) => Ok(()),
                Err(_) => Err(DealingError::PushCardToPlayer),
            }
        },
        None => Err(DealingError::TakingCardFromShoe),
    }
}

/// Deal two cards each, across two passes: each pass gives one card to
/// every player in registration order and then one to the dealer. The
/// deal stops at the first failure and reports whole-operation
/// failure; cards already dealt stay dealt (partial effect with a
/// failure signal, not a rollback).
pub(crate) fn deal_two_rounds(
    shoe: &mut Shoe,
    players: &mut Vec<Player>,
    dealer: &mut Player,
) -> (r: Result<(), DealingError>)
    requires
        old(shoe).wf(),
        players_wf(old(players)@),
        old(dealer).wf(),
    ensures
        final(shoe).cards_seq() == old(shoe).cards_seq(),
        final(shoe).round_start() == old(shoe).round_start(),
        final(shoe).wf(),
        final(dealer).wf(),
        players_wf(final(players)@),
        final(players)@.len() == old(players)@.len(),
        ({
            let cs = old(shoe).cards_seq();
            let c = old(shoe).dealt();
            let k = cs.len() - c;
            let n = old(players)@.len() as int;
            let need = 2 * n + 2;
            let avail = if k < need {
                k
            } else {
                need
            };
            &&& (r is Ok <==> k >= need)
            &&& final(shoe).dealt() == c + avail
            &&& (r is Err ==> r == Err::<(), DealingError>(DealingError::TakingCardFromShoe)
                && final(shoe).dealt() == cs.len())
            &&& forall|i: int|
                0 <= i < n ==> received_cards(
                    old(players)@[i],
                    final(players)@[i],
                    dealt_to(cs, c, avail, i, n + 1 + i),
                )
            &&& received_cards(*old(dealer), *final(dealer), dealt_to(cs, c, avail, n, 2 * n + 1))
        }),
{
    let ghost cs = old(shoe).cards_seq();
    let ghost c = old(shoe).dealt();
    let ghost n = old(players)@.len() as int;
    let ghost p0 = players@;
    let ghost d0 = *dealer;

    let r1 = deal_single_round(shoe, players);
    let ghost pa = players@;
    match r1 {
        Err(e) => {
            proof {
                let k = cs.len() - c;
                let avail = if k < 2 * n + 2 {
                    k
                } else {
                    2 * n + 2
                };
                assert(avail == k);
                assert forall|i: int| 0 <= i < n implies received_cards(
                    p0[i],
                    players@[i],
                    dealt_to(cs, c, avail, i, n + 1 + i),
                ) by {
                    if i < k {
                        assert(dealt_to(cs, c, avail, i, n + 1 + i) =~= seq![cs[c + i]]);
                    } else {
                        crate::blackjack::player::lemma_received_cards_refl(p0[i]);
                        assert(dealt_to(cs, c, avail, i, n + 1 + i) =~= Seq::<Card>::empty());
                    }
                }
                crate::blackjack::player::lemma_received_cards_refl(d0);
                assert(dealt_to(cs, c, avail, n, 2 * n + 1) =~= Seq::<Card>::empty());
            }
            return Err(e);
        },
        Ok(_) => {},
    }
    let r2 = deal_to_dealer(shoe, dealer);
    let ghost da = *dealer;
    match r2 {
        Err(e) => {
            proof {
                let k = cs.len() - c;
                let avail = if k < 2 * n + 2 {
                    k
                } else {
                    2 * n + 2
                };
                assert(k == n);
                assert(avail == k);
                assert forall|i: int| 0 <= i < n implies received_cards(
                    p0[i],
                    players@[i],
                    dealt_to(cs, c, avail, i, n + 1 + i),
                ) by {
                    assert(dealt_to(cs, c, avail, i, n + 1 + i) =~= seq![cs[c + i]]);
                }
                crate::blackjack::player::lemma_received_cards_refl(d0);
                assert(dealt_to(cs, c, avail, n, 2 * n + 1) =~= Seq::<Card>::empty());
            }
            return Err(e);
        },
        Ok(_) => {},
    }
    let r3 = deal_single_round(shoe, players);
    match r3 {
        Err(e) => {
            proof {
                let k = cs.len() - c;
                let k2 = k - (n + 1);
                let avail = if k < 2 * n + 2 {
                    k
                } else {
                    2 * n + 2
                };
                assert(avail == k);
                assert forall|i: int| 0 <= i < n implies received_cards(
                    p0[i],
                    players@[i],
                    dealt_to(cs, c, avail, i, n + 1 + i),
                ) by {
                    if i < k2 {
                        crate::blackjack::player::lemma_received_cards_trans(
                            p0[i],
                            pa[i],
                            players@[i],
                            seq![cs[c + i]],
                            seq![cs[c + n + 1 + i]],
                        );
                        assert(dealt_to(cs, c, avail, i, n + 1 + i) =~= seq![cs[c + i]] + seq![
                            cs[c + n + 1 + i],
                        ]);
                    } else {
                        assert(players@[i] == pa[i]);
                        crate::blackjack::player::lemma_received_cards_trans(
                            p0[i],
                            pa[i],
                            players@[i],
                            seq![cs[c + i]],
                            Seq::<Card>::empty(),
                        );
                        assert(dealt_to(cs, c, avail, i, n + 1 + i) =~= seq![cs[c + i]] + Seq::<
                            Card,
                        >::empty());
                        crate::blackjack::player::lemma_received_cards_refl(pa[i]);
                    }
                }
                assert(dealt_to(cs, c, avail, n, 2 * n + 1) =~= seq![cs[c + n]]);
            }
            return Err(e);
        },
        Ok(_) => {},
    }
    let r4 = deal_to_dealer(shoe, dealer);
    proof {
        let k = cs.len() - c;
        let need = 2 * n + 2;
        let avail = if k < need {
            k
        } else {
            need
        };
        assert forall|i: int| 0 <= i < n implies received_cards(
            p0[i],
            players@[i],
            dealt_to(cs, c, avail, i, n + 1 + i),
        ) by {
            crate::blackjack::player::lemma_received_cards_trans(
                p0[i],
                pa[i],
                players@[i],
                seq![cs[c + i]],
                seq![cs[c + n + 1 + i]],
            );
            assert(dealt_to(cs, c, avail, i, n + 1 + i) =~= seq![cs[c + i]] + seq![
                cs[c + n + 1 + i],
            ]);
        }
        match r4 {
            Err(_) => {
                assert(k == 2 * n + 1);
                assert(avail == k);
                crate::blackjack::player::lemma_received_cards_trans(
                    d0,
                    da,
                    *dealer,
                    seq![cs[c + n]],
                    Seq::<Card>::empty(),
                );
                crate::blackjack::player::lemma_received_cards_refl(da);
                assert(dealt_to(cs, c, avail, n, 2 * n + 1) =~= seq![cs[c + n]] + Seq::<
                    Card,
                >::empty());
            },
            Ok(_) => {
                assert(avail == need);
                crate::blackjack::player::lemma_received_cards_trans(
                    d0,
                    da,
                    *dealer,
                    seq![cs[c + n]],
                    seq![cs[c + 2 * n + 1]],
                );
                assert(dealt_to(cs, c, avail, n, 2 * n + 1) =~= seq![cs[c + n]] + seq![
                    cs[c + 2 * n + 1],
                ]);
            },
        }
    }
    match r4 {
        Err(e) => Err(e),
        Ok(_) => Ok(()),
    }
}

/// A complete table without the channel machinery: the players in
/// registration order, the dealer, and the shoe, with the two-pass
/// deal.
pub struct BasicGame {
    players: Vec<Player>,
    dealer: Player,
    shoe: Shoe,
}

/// The most players one table seats.
pub const MAX_PLAYERS: usize = 7;

impl BasicGame {
    /// The players in registration order.
    pub closed spec fn players_spec(&self) -> Seq<Player> {
        self.players@
    }

    /// The dealer's seat.
    pub closed spec fn dealer_spec(&self) -> Player {
        self.dealer
    }

    /// The card supply.
    pub closed spec fn shoe_spec(&self) -> Shoe {
        self.shoe
    }

    /// Well-formed: the shoe's cursors are in order and every seat
    /// selects a current hand.
    pub open spec fn wf(&self) -> bool {
        &&& self.shoe_spec().wf()
        &&& self.dealer_spec().wf()
        &&& players_wf(self.players_spec())
    }

    pub fn new() -> (g: BasicGame)
        ensures
            g.wf(),
            g.players_spec().len() == 0,
            g.shoe_spec().cards_seq().len() == 52 * 6,
            g.shoe_spec().dealt() == 0,
            g.shoe_spec().round_start() == 0,
            g.dealer_spec().player_type_spec() == PlayerType::Dealer,
            g.dealer_spec().hands_spec().len() == 1,
            g.dealer_spec().hands_spec()[0].is_fresh(),
    {
        BasicGame {
            players: Vec::with_capacity(MAX_PLAYERS),
            dealer: Player::new_dealer("Dealer".to_owned()),
            shoe: Shoe::with_decks(6),
        }
    }

    /// A table whose shoe holds `n` fresh decks; zero is legal and
    /// yields a table that cannot deal.
    pub fn with_n_decks(n: u32) -> (g: BasicGame)
        ensures
            g.wf(),
            g.players_spec().len() == 0,
            g.shoe_spec().cards_seq().len() == 52 * n,
            g.shoe_spec().dealt() == 0,
            g.shoe_spec().round_start() == 0,
            g.dealer_spec().player_type_spec() == PlayerType::Dealer,
            g.dealer_spec().hands_spec().len() == 1,
            g.dealer_spec().hands_spec()[0].is_fresh(),
    {
        BasicGame {
            players: Vec::with_capacity(MAX_PLAYERS),
            dealer: Player::new_dealer("Dealer".to_owned()),
            shoe: Shoe::with_decks(n),
        }
    }

    /// Shuffle the shoe (two full permutations) before play.
    pub fn setup(&mut self)
        ensures
            final(self).shoe_spec().cards_seq().to_multiset() == old(
                self,
            ).shoe_spec().cards_seq().to_multiset(),
            final(self).shoe_spec().cards_seq().len() == old(self).shoe_spec().cards_seq().len(),
            final(self).shoe_spec().dealt() == old(self).shoe_spec().dealt(),
            final(self).shoe_spec().round_start() == old(self).shoe_spec().round_start(),
            final(self).players_spec() == old(self).players_spec(),
            final(self).dealer_spec() == old(self).dealer_spec(),
            old(self).wf() ==> final(self).wf(),
    {
        self.shoe.shuffle();
    }

    pub fn add_player(&mut self, player: Player)
        ensures
            final(self).players_spec() == old(self).players_spec().push(player),
            final(self).dealer_spec() == old(self).dealer_spec(),
            final(self).shoe_spec() == old(self).shoe_spec(),
            old(self).wf() && player.wf() ==> final(self).wf(),
    {
        self.players.push(player);
    }

    /// Whether the table still has one of its seats free.
    pub fn can_add_player(&self) -> (r: bool)
        ensures
            r == (self.players_spec().len() < MAX_PLAYERS),
    {
        self.players.len() < MAX_PLAYERS
    }

    pub fn get_players(&self) -> (r: &Vec<Player>)
        ensures
            r@ == self.players_spec(),
    {
        &self.players
    }

    pub fn get_dealer(&self) -> (r: &Player)
        ensures
            *r == self.dealer_spec(),
    {
        &self.dealer
    }

    /// Deal two cards to every player and the dealer, as
    /// `deal_two_rounds` specifies: exactly two each when the shoe
    /// suffices, a distinct whole-operation failure otherwise, with
    /// already-dealt cards kept.
    pub fn deal_cards(&mut self) -> (r: Result<(), DealingError>)
        requires
            old(self).wf(),
        ensures
            final(self).wf(),
            final(self).shoe_spec().cards_seq() == old(self).shoe_spec().cards_seq(),
            final(self).shoe_spec().round_start() == old(self).shoe_spec().round_start(),
            final(self).players_spec().len() == old(self).players_spec().len(),
            ({
                let cs = old(self).shoe_spec().cards_seq();
                let c = old(self).shoe_spec().dealt();
                let k = cs.len() - c;
                let n = old(self).players_spec().len() as int;
                let need = 2 * n + 2;
                let avail = if k < need {
                    k
                } else {
                    need
                };
                &&& (r is Ok <==> k >= need)
                &&& final(self).shoe_spec().dealt() == c + avail
                &&& (r is Err ==> r == Err::<(), DealingError>(DealingError::TakingCardFromShoe)
                    && final(self).shoe_spec().dealt() == cs.len())
                &&& forall|i: int|
                    0 <= i < n ==> received_cards(
                        old(self).players_spec()[i],
                        final(self).players_spec()[i],
                        dealt_to(cs, c, avail, i, n + 1 + i),
                    )
                &&& received_cards(
                    old(self).dealer_spec(),
                    final(self).dealer_spec(),
                    dealt_to(cs, c, avail, n, 2 * n + 1),
                )
            }),
    {
        deal_two_rounds(&mut self.shoe, &mut self.players, &mut self.dealer)
    }
}

} // verus!
