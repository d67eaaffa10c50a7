//! Inert card and game data declarations. These carry no behaviour of their
//! own; the relay only exists to move messages about games between services.

use vstd::prelude::*;

verus! {

/// One of the four French card suits.
#[derive(Debug, PartialEq, Eq, Structural, Clone, Copy)]
pub enum Suit {
    Clubs,
    Diamonds,
    Hearts,
    Spades,
}

/// A card rank.
#[derive(Debug, PartialEq, Eq, Structural, Clone, Copy)]
pub enum Rank {
    One,
    Two,
    Three,
    Four,
    Five,
    Six,
    Seven,
    Eight,
    Nine,
    Ten,
    Jack,
    Queen,
    King,
    Ace,
}

/// A playing card: a suit together with a rank.
#[derive(Debug, PartialEq, Eq, Structural, Clone, Copy)]
pub struct Card {
    suit: Suit,
    rank: Rank,
}

/// A single running game: its identifier and the community cards.
pub struct GameInstance {
    id: String,
    center_cards: Vec<Card>,
}

} // verus!
