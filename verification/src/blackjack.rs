pub mod basic_game;
pub mod blackjack_hand;
pub mod game;
pub mod hand_actions;
pub mod hand_value;
pub mod lifecycle;
pub mod player;
pub mod state;
pub mod wager;
