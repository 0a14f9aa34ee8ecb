pub mod blackjack;
pub mod cards;
