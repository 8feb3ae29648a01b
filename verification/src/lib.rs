//! A card-domain model for a four-player Schafkopf-style trick-taking game:
//! the 32-card universe, a deck with shuffling and round-robin dealing, and
//! the trick-winner resolution rules for six game modes.

pub mod card;
pub mod deck;
pub mod gamemode;
pub mod player;

pub use card::Card;
pub use card::Rank;
pub use card::Suit;
pub use deck::Deck;
pub use gamemode::Gamemode;
pub use player::ExternalPlayer;
pub use player::HumanPlayer;
pub use player::InternalPlayer;
pub use player::NpcPlayer;
pub use player::PlayerBase;
pub use player::PlayerBaseAccess;
pub use player::PlayerError;
