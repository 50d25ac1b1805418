//! An ordered deck of trading cards: card codes, counted entries and the
//! deck that holds them.

pub mod card;
pub mod deck;
pub mod error;

pub use card::{Card, CardCodeAndCount, Faction};
pub use deck::Deck;
pub use error::LorError;
