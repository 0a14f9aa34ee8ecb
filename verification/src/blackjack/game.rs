use vstd::prelude::*;

use crossbeam_channel::{Receiver, Sender};

use crate::blackjack::basic_game::DealingError;
use crate::blackjack::lifecycle::{Lifecycle, Phase};
use crate::blackjack::player::{Player, PlayerType};
use crate::blackjack::state::State;
use crate::cards::shuffleable::Shuffleable;

verus! {

#[verifier::external_type_specification]
#[verifier::external_body]
#[verifier::reject_recursive_types(T)]
pub struct ExSender<T>(Sender<T>);

#[verifier::external_type_specification]
#[verifier::external_body]
#[verifier::reject_recursive_types(T)]
pub struct ExReceiver<T>(Receiver<T>);

/// Relies on crossbeam's `unbounded`: the two ends of one new
/// multi-producer, multi-consumer FIFO queue without a capacity bound.
/// What later flows through it is up to every holder of either end, so
/// nothing is promised of the values.
#[verifier::external_body]
fn channel_unbounded<T>() -> (Sender<T>, Receiver<T>) {
    crossbeam_channel::unbounded()
}

/// Relies on crossbeam's `Sender::send`: on an unbounded channel it
/// never blocks and fails only once every receiver is gone. Reports
/// whether the message was accepted.
#[verifier::external_body]
fn channel_send<T>(tx: &Sender<T>, message: T) -> bool {
    tx.send(message).is_ok()
}

/// Relies on crossbeam's `Receiver::try_recv`: the next queued
/// message if one is ready, without blocking. What arrives depends on
/// the other holders of the channel, so nothing is promised of the
/// value.
#[verifier::external_body]
fn channel_try_recv<T>(rx: &Receiver<T>) -> Option<T> {
    rx.try_recv().ok()
}

/// Relies on crossbeam's `Sender::clone`: another handle onto the same
/// channel.
#[verifier::external_body]
fn sender_clone<T>(tx: &Sender<T>) -> Sender<T> {
    tx.clone()
}

/// Relies on crossbeam's `Receiver::clone`: another handle onto the
/// same channel.
#[verifier::external_body]
fn receiver_clone<T>(rx: &Receiver<T>) -> Receiver<T> {
    rx.clone()
}

/// Both ends of one message queue.
#[verifier::reject_recursive_types(M)]
pub struct Channel<M> {
    tx: Sender<M>,
    rx: Receiver<M>,
}

impl<M> Channel<M> {
    fn new() -> Channel<M> {
        let (tx, rx) = channel_unbounded::<M>();
        Channel { tx, rx }
    }
}

/// Milestones of the round lifecycle, announced to the presentation
/// layer.
pub enum LifecycleMessage {
    StartPhase(Phase),
    EndPhase(Phase),
}

/// Why the engine could not complete an action.
#[derive(PartialEq, Eq, Structural, Clone, Copy, Debug)]
pub enum GameError {
    PlayerNotFound,
}

/// A request from the presentation layer to the engine. The set is
/// closed; each variant carries plain payloads.
pub enum Action {
    AddPlayer(Player),
    CreateAndAddPlayer(String),
    Deal,
}

/// A one-way notification from the engine to the presentation layer.
/// No event implies that a particular prior action succeeded except
/// by its 1:1 naming correspondence.
#[derive(Clone, Copy, Debug)]
pub enum Event {
    PlayerAdded(Result<u128, GameError>),
    DealingFailed(DealingError),
    BankrollChanged(u128, u32),
}

/// The three queues at the engine boundary: lifecycle announcements,
/// inbound actions, outbound events.
pub struct Channels {
    lifecycle: Channel<LifecycleMessage>,
    actions: Channel<Action>,
    events: Channel<Event>,
}

impl Channels {
    fn new() -> Channels {
        Channels { lifecycle: Channel::new(), actions: Channel::new(), events: Channel::new() }
    }
}

impl Default for Channels {
    fn default() -> Channels {
        Channels::new()
    }
}

/// How many queued actions one engine tick is willing to drain before
/// yielding; later actions wait for the next tick.
pub const STEP_BUDGET: usize = 1024;

/// How one action transforms the engine's state, and which events
/// report its outcome, in order. An `AddPlayer` carrying a ready-made
/// player is accepted and ignored; `CreateAndAddPlayer` constructs and
/// seats a fresh player and reports its id; `Deal` runs the two-pass
/// deal and reports only failure.
pub open spec fn action_applied(pre: State, post: State, action: Action, events: Seq<Event>) -> bool {
    match action {
        Action::AddPlayer(_) => {
            &&& post == pre
            &&& events == Seq::<Event>::empty()
        },
        Action::CreateAndAddPlayer(name) => {
            &&& post.players_spec().len() == pre.players_spec().len() + 1
            &&& post.players_spec().drop_last() == pre.players_spec()
            &&& post.players_spec().last().wf()
            &&& post.players_spec().last().name_spec() == name@
            &&& post.players_spec().last().player_type_spec() == PlayerType::Player
            &&& post.players_spec().last().bankroll_spec() == 0
            &&& post.players_spec().last().hands_spec().len() == 1
            &&& post.players_spec().last().hands_spec()[0].is_fresh()
            &&& post.dealer_spec() == pre.dealer_spec()
            &&& post.shoe_spec() == pre.shoe_spec()
            &&& post.status_spec() == pre.status_spec()
            &&& events == seq![
                Event::PlayerAdded(Ok::<u128, GameError>(post.players_spec().last().id_spec())),
            ]
        },
        Action::Deal => {
            let cs = pre.shoe_spec().cards_seq();
            let c = pre.shoe_spec().dealt();
            let k = cs.len() - c;
            let n = pre.players_spec().len() as int;
            let need = 2 * n + 2;
            let avail = if k < need {
                k
            } else {
                need
            };
            &&& post.shoe_spec().cards_seq() == cs
            &&& post.shoe_spec().round_start() == pre.shoe_spec().round_start()
            &&& post.shoe_spec().dealt() == c + avail
            &&& post.players_spec().len() == pre.players_spec().len()
            &&& forall|i: int|
                0 <= i < n ==> crate::blackjack::player::received_cards(
                    pre.players_spec()[i],
                    post.players_spec()[i],
                    crate::blackjack::basic_game::dealt_to(cs, c, avail, i, n + 1 + i),
                )
            &&& crate::blackjack::player::received_cards(
                pre.dealer_spec(),
                post.dealer_spec(),
                crate::blackjack::basic_game::dealt_to(cs, c, avail, n, 2 * n + 1),
            )
            &&& post.dealer_spec().wf()
            &&& post.status_spec() == pre.status_spec()
            &&& (k >= need ==> events == Seq::<Event>::empty())
            &&& (k < need ==> events == seq![
                Event::DealingFailed(DealingError::TakingCardFromShoe),
            ])
        },
    }
}

/// The single-writer engine: it owns the game state exclusively,
/// drains inbound actions once per tick, applies them in order, and
/// emits events without awaiting acknowledgment.
pub struct Game {
    lifecycle: Lifecycle,
    state: State,
    pub channels: Channels,
}

impl Game {
    /// The engine boundary's queues.
    pub closed spec fn channels_spec(&self) -> Channels {
        self.channels
    }

    /// The owned game state.
    pub closed spec fn state_spec(&self) -> State {
        self.state
    }

    /// The round lifecycle.
    pub closed spec fn lifecycle_spec(&self) -> Lifecycle {
        self.lifecycle
    }

    /// Well-formed: the state and the lifecycle are.
    pub open spec fn wf(&self) -> bool {
        self.state_spec().wf() && self.lifecycle_spec().wf()
    }

    pub fn new() -> (g: Game)
        ensures
            g.wf(),
            g.state_spec().players_spec().len() == 0,
            g.state_spec().shoe_spec().cards_seq().len() == 52 * 6,
            g.state_spec().shoe_spec().dealt() == 0,
            g.lifecycle_spec().phase_spec().curr_spec() == Phase::Initial,
    {
        Game { lifecycle: Lifecycle::new(), state: State::new(), channels: Channels::new() }
    }

    /// A game whose shoe holds `decks` fresh decks; zero is legal and
    /// yields a game whose deals fail.
    pub fn with_decks(decks: u32) -> (g: Game)
        ensures
            g.wf(),
            g.state_spec().players_spec().len() == 0,
            g.state_spec().shoe_spec().cards_seq().len() == 52 * decks,
            g.state_spec().shoe_spec().dealt() == 0,
            g.lifecycle_spec().phase_spec().curr_spec() == Phase::Initial,
    {
        Game {
            lifecycle: Lifecycle::new(),
            state: State::with_decks(decks),
            channels: Channels::new(),
        }
    }

    /// Shuffle the shoe before play.
    pub fn setup(&mut self)
        requires
            old(self).wf(),
        ensures
            final(self).wf(),
            final(self).state_spec().shoe_spec().cards_seq().to_multiset() == old(
                self,
            ).state_spec().shoe_spec().cards_seq().to_multiset(),
            final(self).state_spec().shoe_spec().dealt() == old(
                self,
            ).state_spec().shoe_spec().dealt(),
            final(self).state_spec().shoe_spec().round_start() == old(
                self,
            ).state_spec().shoe_spec().round_start(),
            final(self).state_spec().players_spec() == old(self).state_spec().players_spec(),
            final(self).state_spec().dealer_spec() == old(self).state_spec().dealer_spec(),
            final(self).lifecycle_spec() == old(self).lifecycle_spec(),
    {
        let shoe = self.state.shoe_mut();
        shoe.shuffle();
    }

    /// A read-only snapshot of the owned state, for observers.
    pub fn get_state(&self) -> (r: &State)
        ensures
            *r == self.state_spec(),
    {
        &self.state
    }

    pub fn get_channels(&self) -> (r: &Channels)
        ensures
            *r == self.channels_spec(),
    {
        &self.channels
    }

    /// A handle for the presentation layer to read events from.
    pub fn get_events_receiver(&self) -> Receiver<Event> {
        receiver_clone(&self.channels.events.rx)
    }

    /// A handle for the presentation layer to send actions into.
    pub fn get_actions_sender(&self) -> Sender<Action> {
        sender_clone(&self.channels.actions.tx)
    }

    /// Drain and apply the actions queued at this tick, in arrival
    /// order, up to the tick's budget; then yield. Actions beyond the
    /// budget wait for the next tick, so every enqueued action is
    /// eventually processed while ticking continues.
    pub fn step(&mut self)
        requires
            old(self).wf(),
        ensures
            final(self).wf(),
            final(self).lifecycle_spec() == old(self).lifecycle_spec(),
    {
        let mut budget: usize = STEP_BUDGET;
        while budget > 0
            invariant
                self.wf(),
                self.lifecycle_spec() == old(self).lifecycle_spec(),
            decreases budget,
        {
            match channel_try_recv(&self.channels.actions.rx) {
                Some(action) => self.handle_incoming_action(action),
                None => {
                    return;
                },
            }
            budget -= 1;
        }
    }

    /// Apply one action to the owned state and return the events that
    /// report its outcome, in order.
    pub fn apply_action(&mut self, action: Action) -> (events: Vec<Event>)
        requires
            old(self).wf(),
        ensures
            final(self).wf(),
            final(self).lifecycle_spec() == old(self).lifecycle_spec(),
            action_applied(old(self).state_spec(), final(self).state_spec(), action, events@),
    {
        let mut events: Vec<Event> = Vec::new();
        match action {
            Action::AddPlayer(_player) => {
                proof {
                    assert(events@ =~= Seq::<Event>::empty());
                }
            },
            Action::CreateAndAddPlayer(name) => {
                let player = Player::new(name);
                let id = player.get_id();
                self.state.add_player(player);
                events.push(Event::PlayerAdded(Ok(id)));
                proof {
                    assert(self.state_spec().players_spec().drop_last() =~= old(
                        self,
                    ).state_spec().players_spec());
                    assert(events@ =~= seq![
                        Event::PlayerAdded(
                            Ok::<u128, GameError>(
                                self.state_spec().players_spec().last().id_spec(),
                            ),
                        ),
                    ]);
                }
            },
            Action::Deal => {
                match self.state.deal_cards() {
                    Ok(_) => {
                        proof {
                            assert(events@ =~= Seq::<Event>::empty());
                        }
                    },
                    Err(reason) => {
                        events.push(Event::DealingFailed(reason));
                        proof {
                            assert(events@ =~= seq![
                                Event::DealingFailed(DealingError::TakingCardFromShoe),
                            ]);
                        }
                    },
                }
            },
        }
        events
    }

    /// Handle one inbound action: apply it to the state and emit its
    /// events in order. An event that finds no live receiver is
    /// dropped, never blocking the engine.
    pub fn handle_incoming_action(&mut self, action: Action)
        requires
            old(self).wf(),
        ensures
            final(self).wf(),
            final(self).lifecycle_spec() == old(self).lifecycle_spec(),
            exists|events: Seq<Event>|
                action_applied(
                    old(self).state_spec(),
                    final(self).state_spec(),
                    action,
                    events,
                ),
    {
        let events = self.apply_action(action);
        let mut i: usize = 0;
        while i < events.len()
            invariant
                0 <= i <= events@.len(),
            decreases events@.len() - i,
        {
            let event = events[i];
            self.emit(event);
            i += 1;
        }
    }

    /// Send one event to the presentation layer; report whether a
    /// receiver took it.
    fn emit(&self, event: Event) -> bool {
        channel_send(&self.channels.events.tx, event)
    }
}

impl Default for Game {
    fn default() -> (g: Game)
        ensures
            g.wf(),
    {
        Game::new()
    }
}

} // verus!
