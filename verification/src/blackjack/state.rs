use vstd::prelude::*;

use crate::blackjack::basic_game::{
    deal_two_rounds, dealt_to, players_wf, DealingError,
};
use crate::blackjack::player::{received_cards, Player, PlayerType};
use crate::cards::shoe::Shoe;

verus! {

/// Coarse standing of the aggregate state.
#[allow(non_camel_case_types)]
#[derive(PartialEq, Eq, Structural, Clone, Copy, Debug)]
pub enum Status {
    INITIAL,
}

/// Failure of a state operation addressed to a player by id.
#[derive(PartialEq, Eq, Structural, Clone, Copy, Debug)]
pub enum StateError {
    UnknownPlayer,
}

/// The authoritative aggregate the engine owns exclusively: the shoe,
/// the dealer, the players in registration order, and the coarse
/// status.
pub struct State {
    players: Vec<Player>,
    dealer: Player,
    shoe: Shoe,
    status: Status,
}

impl State {
    /// The players in registration order.
    pub closed spec fn players_spec(&self) -> Seq<Player> {
        self.players@
    }

    /// The dealer's seat.
    pub closed spec fn dealer_spec(&self) -> Player {
        self.dealer
    }

    /// The card supply.
    pub closed spec fn shoe_spec(&self) -> Shoe {
        self.shoe
    }

    /// The coarse status.
    pub closed spec fn status_spec(&self) -> Status {
        self.status
    }

    /// Well-formed: the shoe's cursors are in order and every seat
    /// selects a current hand.
    pub open spec fn wf(&self) -> bool {
        &&& self.shoe_spec().wf()
        &&& self.dealer_spec().wf()
        &&& players_wf(self.players_spec())
    }

    /// A fresh state with the customary six-deck shoe.
    pub fn new() -> (s: State)
        ensures
            s.wf(),
            s.players_spec().len() == 0,
            s.shoe_spec().cards_seq().len() == 52 * 6,
            s.shoe_spec().dealt() == 0,
            s.shoe_spec().round_start() == 0,
            s.dealer_spec().player_type_spec() == PlayerType::Dealer,
            s.dealer_spec().hands_spec().len() == 1,
            s.dealer_spec().hands_spec()[0].is_fresh(),
            s.status_spec() == Status::INITIAL,
    {
        State::with_decks(6)
    }

    /// A fresh state whose shoe holds `decks` fresh decks; zero is
    /// legal and yields a state that cannot deal.
    pub fn with_decks(decks: u32) -> (s: State)
        ensures
            s.wf(),
            s.players_spec().len() == 0,
            s.shoe_spec().cards_seq().len() == 52 * decks,
            s.shoe_spec().dealt() == 0,
            s.shoe_spec().round_start() == 0,
            s.dealer_spec().player_type_spec() == PlayerType::Dealer,
            s.dealer_spec().hands_spec().len() == 1,
            s.dealer_spec().hands_spec()[0].is_fresh(),
            s.status_spec() == Status::INITIAL,
    {
        State {
            players: Vec::new(),
            dealer: Player::new_dealer("Dealer".to_owned()),
            shoe: Shoe::with_decks(decks),
            status: Status::INITIAL,
        }
    }

    /// Mutable access to the shoe, for shuffling and round marks.
    pub fn shoe_mut(&mut self) -> (r: &mut Shoe)
        ensures
            *r == old(self).shoe_spec(),
            final(self).shoe_spec() == *final(r),
            final(self).players_spec() == old(self).players_spec(),
            final(self).dealer_spec() == old(self).dealer_spec(),
            final(self).status_spec() == old(self).status_spec(),
    {
        &mut self.shoe
    }

    pub fn add_player(&mut self, player: Player)
        ensures
            final(self).players_spec() == old(self).players_spec().push(player),
            final(self).dealer_spec() == old(self).dealer_spec(),
            final(self).shoe_spec() == old(self).shoe_spec(),
            final(self).status_spec() == old(self).status_spec(),
            old(self).wf() && player.wf() ==> final(self).wf(),
    {
        self.players.push(player);
    }

    /// The position of the first player with the given id.
    fn get_player_position_from_id(&self, player_id: u128) -> (r: Option<usize>)
        ensures
            match r {
                Some(pos) => {
                    &&& 0 <= pos < self.players_spec().len()
                    &&& self.players_spec()[pos as int].id_spec() == player_id
                    &&& forall|j: int|
                        0 <= j < pos ==> self.players_spec()[j].id_spec() != player_id
                },
                None => forall|j: int|
                    0 <= j < self.players_spec().len() ==> self.players_spec()[j].id_spec()
                        != player_id,
            },
    {
        let mut i: usize = 0;
        while i < self.players.len()
            invariant
                0 <= i <= self.players_spec().len(),
                forall|j: int| 0 <= j < i ==> self.players_spec()[j].id_spec() != player_id,
            decreases self.players_spec().len() - i,
        {
            if self.players[i].get_id() == player_id {
                return Some(i);
            }
            i += 1;
        }
        None
    }

    /// Remove the first player with the given id. An unknown id is
    /// reported, not fatal, and leaves the state unchanged.
    pub fn remove_player_by_id(&mut self, player_id: u128) -> (r: Result<(), StateError>)
        ensures
            final(self).dealer_spec() == old(self).dealer_spec(),
            final(self).shoe_spec() == old(self).shoe_spec(),
            final(self).status_spec() == old(self).status_spec(),
            (exists|i: int|
                0 <= i < old(self).players_spec().len() && old(self).players_spec()[i].id_spec()
                    == player_id) ==> {
                &&& r is Ok
                &&& exists|i: int|
                    {
                        &&& 0 <= i < old(self).players_spec().len()
                        &&& old(self).players_spec()[i].id_spec() == player_id
                        &&& (forall|j: int|
                            0 <= j < i ==> old(self).players_spec()[j].id_spec() != player_id)
                        &&& final(self).players_spec() == old(self).players_spec().remove(i)
                    }
            },
            !(exists|i: int|
                0 <= i < old(self).players_spec().len() && old(self).players_spec()[i].id_spec()
                    == player_id) ==> {
                &&& r == Err::<(), StateError>(StateError::UnknownPlayer)
                &&& final(self).players_spec() == old(self).players_spec()
            },
            old(self).wf() ==> final(self).wf(),
    {
        let position = self.get_player_position_from_id(player_id);
        match position {
            Some(pos) => {
                self.players.remove(pos);
                Ok(())
            },
            None => Err(StateError::UnknownPlayer),
        }
    }

    /// The first player with the given id, if any.
    pub fn get_player_by_id(&self, player_id: u128) -> (r: Option<&Player>)
        ensures
            match r {
                Some(p) => {
                    &&& p.id_spec() == player_id
                    &&& exists|i: int|
                        0 <= i < self.players_spec().len() && self.players_spec()[i] == *p
                },
                None => forall|j: int|
                    0 <= j < self.players_spec().len() ==> self.players_spec()[j].id_spec()
                        != player_id,
            },
    {
        if let Some(position) = self.get_player_position_from_id(player_id) {
            Some(&self.players[position])
        } else {
            None
        }
    }

    /// Deal two cards to every player and the dealer, as
    /// `deal_two_rounds` specifies.
    pub fn deal_cards(&mut self) -> (r: Result<(), DealingError>)
        requires
            old(self).wf(),
        ensures
            final(self).wf(),
            final(self).dealer_spec().wf(),
            final(self).status_spec() == old(self).status_spec(),
            final(self).shoe_spec().cards_seq() == old(self).shoe_spec().cards_seq(),
            final(self).shoe_spec().round_start() == old(self).shoe_spec().round_start(),
            final(self).players_spec().len() == old(self).players_spec().len(),
            ({
                let cs = old(self).shoe_spec().cards_seq();
                let c = old(self).shoe_spec().dealt();
                let k = cs.len() - c;
                let n = old(self).players_spec().len() as int;
                let need = 2 * n + 2;
                let avail = if k < need {
                    k
                } else {
                    need
                };
                &&& (r is Ok <==> k >= need)
                &&& final(self).shoe_spec().dealt() == c + avail
                &&& (r is Err ==> r == Err::<(), DealingError>(DealingError::TakingCardFromShoe)
                    && final(self).shoe_spec().dealt() == cs.len())
                &&& forall|i: int|
                    0 <= i < n ==> received_cards(
                        old(self).players_spec()[i],
                        final(self).players_spec()[i],
                        dealt_to(cs, c, avail, i, n + 1 + i),
                    )
                &&& received_cards(
                    old(self).dealer_spec(),
                    final(self).dealer_spec(),
                    dealt_to(cs, c, avail, n, 2 * n + 1),
                )
            }),
    {
        deal_two_rounds(&mut self.shoe, &mut self.players, &mut self.dealer)
    }
}

} // verus!
