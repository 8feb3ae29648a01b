//! The card model: four suits, eight ranks, and the 32-card universe of
//! (suit, rank) pairs, together with each rank's point value and the two
//! strength orders (suit precedence among Obers and Unters, and the
//! non-trump rank order) that trick resolution builds on.

use vstd::prelude::*;

verus! {

/// One of the four suits, in precedence order: Eichel > Gras > Herz > Schell.
#[derive(Debug, Clone, Copy, PartialEq, Eq, Structural)]
pub enum Suit {
    Eichel,
    Gras,
    Herz,
    Schell,
}

/// One of the eight ranks, in canonical declaration order.
#[derive(Debug, Clone, Copy, PartialEq, Eq, Structural)]
pub enum Rank {
    Ass,
    Zehn,
    Koenig,
    Ober,
    Unter,
    Neun,
    Acht,
    Sieben,
}

/// A playing card: one (suit, rank) pair out of the 32-card universe.
#[derive(Debug, Clone, Copy, PartialEq, Eq, Structural)]
pub struct Card {
    pub suit: Suit,
    pub rank: Rank,
}

/// The fixed point value of a rank, used for scoring a won trick.
pub open spec fn rank_points(r: Rank) -> int {
    match r {
        Rank::Ass => 11,
        Rank::Zehn => 10,
        Rank::Koenig => 4,
        Rank::Ober => 3,
        Rank::Unter => 3,
        _ => 0,
    }
}

/// Precedence among suits, used to order Obers (and Unters) among
/// themselves: Eichel > Gras > Herz > Schell.
pub open spec fn suit_precedence(s: Suit) -> int {
    match s {
        Suit::Eichel => 4,
        Suit::Gras => 3,
        Suit::Herz => 2,
        Suit::Schell => 1,
    }
}

/// Strength of a rank when the card is not trump: Ass highest, Sieben
/// lowest. Every rank has strength at least 1.
pub open spec fn rank_strength(r: Rank) -> int {
    match r {
        Rank::Ass => 8,
        Rank::Zehn => 7,
        Rank::Koenig => 6,
        Rank::Ober => 5,
        Rank::Unter => 4,
        Rank::Neun => 3,
        Rank::Acht => 2,
        Rank::Sieben => 1,
    }
}

/// The human-readable name of a suit.
pub open spec fn suit_name(s: Suit) -> Seq<char> {
    match s {
        Suit::Eichel => "Eichel"@,
        Suit::Gras => "Gras"@,
        Suit::Herz => "Herz"@,
        Suit::Schell => "Schell"@,
    }
}

/// The human-readable (German) name of a rank.
pub open spec fn rank_name(r: Rank) -> Seq<char> {
    match r {
        Rank::Ass => "Ass"@,
        Rank::Zehn => "Zehn"@,
        Rank::Koenig => "Koenig"@,
        Rank::Ober => "Ober"@,
        Rank::Unter => "Unter"@,
        Rank::Neun => "Neun"@,
        Rank::Acht => "Acht"@,
        Rank::Sieben => "Sieben"@,
    }
}

impl Rank {
    /// The point value this rank contributes to a won trick.
    pub fn points(&self) -> (p: u8)
        ensures
            p as int == rank_points(*self),
    {
        match self {
            Rank::Ass => 11,
            Rank::Zehn => 10,
            Rank::Koenig => 4,
            Rank::Ober => 3,
            Rank::Unter => 3,
            _ => 0,
        }
    }

    /// The display name of this rank.
    pub fn name(&self) -> (r: &'static str)
        ensures
            r@ == rank_name(*self),
    {
        match self {
            Rank::Ass => "Ass",
            Rank::Zehn => "Zehn",
            Rank::Koenig => "Koenig",
            Rank::Ober => "Ober",
            Rank::Unter => "Unter",
            Rank::Neun => "Neun",
            Rank::Acht => "Acht",
            Rank::Sieben => "Sieben",
        }
    }
}

impl Suit {
    /// The display name of this suit.
    pub fn name(&self) -> (r: &'static str)
        ensures
            r@ == suit_name(*self),
    {
        match self {
            Suit::Eichel => "Eichel",
            Suit::Gras => "Gras",
            Suit::Herz => "Herz",
            Suit::Schell => "Schell",
        }
    }
}

} // verus!
