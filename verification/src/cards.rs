pub mod bankroll;
pub mod card;
pub mod deck;
pub mod hand;
pub mod player;
pub mod rank;
pub mod shoe;
pub mod shuffleable;
pub mod suit;

pub use crate::cards::card::Card;
pub use crate::cards::hand::Hand;
pub use crate::cards::rank::Rank;
pub use crate::cards::suit::Suit;
