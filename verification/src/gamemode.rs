//! Trick resolution: the six game modes, each with its trump-eligibility
//! rule, and the selection of the winning card among the four cards of a
//! trick.
//!
//! Two families share the algorithm. The classic-trump family (Sauspiel,
//! Solo, Ramsch, Bettel) makes every Ober and Unter trump together with
//! one trump suit; the single-rank family (Wenz, Geier) makes one
//! designated rank trump together with an optional extra trump suit. In
//! both, if any trump is present the strongest trump wins, otherwise the
//! strongest card of the led suit wins.

use vstd::prelude::*;

use crate::card::rank_strength;
use crate::card::suit_precedence;
use crate::card::Card;
use crate::card::Rank;
use crate::card::Suit;

verus! {

/// The six game modes. The `Suit` of `Sauspiel` is the called suit, which
/// plays no part in trick resolution (trump is fixed to Herz there); the
/// `Suit` of `Solo` is the chosen trump suit; `Wenz` and `Geier` carry an
/// optional extra trump suit. `Bettel` and `Ramsch` use the same
/// Herz-trump rule as `Sauspiel`. That `Bettel` has Herz trump at all is
/// a deliberate compatibility decision of this model: by the conventional
/// table rules a Bettel is played without any trump.
pub enum Gamemode {
    Sauspiel(Suit),
    Solo(Suit),
    Wenz(Option<Suit>),
    Geier(Option<Suit>),
    Bettel,
    Ramsch,
}

/// Whether a card is trump under the classic rule with trump suit `t`:
/// every Ober and Unter is trump, and so is every card of suit `t`.
pub open spec fn classic_is_trump(t: Suit, c: Card) -> bool {
    c.rank == Rank::Ober || c.rank == Rank::Unter || c.suit == t
}

/// Trump strength under the classic rule with trump suit `t`, as an
/// ordered-tier score: Obers (by suit precedence) above Unters (by suit
/// precedence) above cards of suit `t` (by non-trump rank strength);
/// non-trump cards score 0.
pub open spec fn classic_strength(t: Suit, c: Card) -> int {
    if c.rank == Rank::Ober {
        300 + suit_precedence(c.suit)
    } else if c.rank == Rank::Unter {
        200 + suit_precedence(c.suit)
    } else if c.suit == t {
        100 + rank_strength(c.rank)
    } else {
        0
    }
}

/// Whether a card is trump under the single-rank rule: its rank is the
/// designated rank `dr`, or the optional trump suit `t` is its suit.
pub open spec fn single_rank_is_trump(dr: Rank, t: Option<Suit>, c: Card) -> bool {
    c.rank == dr || t == Some(c.suit)
}

/// Trump strength under the single-rank rule: cards of the designated
/// rank (by suit precedence) above cards of the optional trump suit (by
/// non-trump rank strength); non-trump cards score 0.
pub open spec fn single_rank_strength(dr: Rank, t: Option<Suit>, c: Card) -> int {
    if c.rank == dr {
        200 + suit_precedence(c.suit)
    } else if t == Some(c.suit) {
        100 + rank_strength(c.rank)
    } else {
        0
    }
}

/// Whether a card is trump under a game mode.
pub open spec fn mode_is_trump(mode: Gamemode, c: Card) -> bool {
    match mode {
        Gamemode::Sauspiel(_) | Gamemode::Bettel | Gamemode::Ramsch => classic_is_trump(
            Suit::Herz,
            c,
        ),
        Gamemode::Solo(t) => classic_is_trump(t, c),
        Gamemode::Wenz(t) => single_rank_is_trump(Rank::Unter, t, c),
        Gamemode::Geier(t) => single_rank_is_trump(Rank::Ober, t, c),
    }
}

/// Trump strength of a card under a game mode (0 for non-trump cards).
pub open spec fn mode_strength(mode: Gamemode, c: Card) -> int {
    match mode {
        Gamemode::Sauspiel(_) | Gamemode::Bettel | Gamemode::Ramsch => classic_strength(
            Suit::Herz,
            c,
        ),
        Gamemode::Solo(t) => classic_strength(t, c),
        Gamemode::Wenz(t) => single_rank_strength(Rank::Unter, t, c),
        Gamemode::Geier(t) => single_rank_strength(Rank::Ober, t, c),
    }
}

/// The modes of the classic trump family: all Obers and Unters are trump
/// together with one trump suit (Herz, unless a Solo chose otherwise).
pub open spec fn classic_family(mode: Gamemode) -> bool {
    mode matches Gamemode::Sauspiel(_) || mode matches Gamemode::Solo(_) || mode
        == Gamemode::Bettel || mode == Gamemode::Ramsch
}

/// The score of a card in the led-suit fallback: its non-trump rank
/// strength if it follows the led suit, else 0.
pub open spec fn led_strength(c: Card, led: Suit) -> int {
    if c.suit == led {
        rank_strength(c.rank)
    } else {
        0
    }
}

/// Whether the trick holds at least one trump card under the mode.
pub open spec fn has_trump(mode: Gamemode, trick: Seq<Card>) -> bool {
    exists|i: int| 0 <= i < trick.len() && mode_is_trump(mode, trick[i])
}

/// The score under which the four cards of a trick compete: the trump
/// strength if any trump is present, else the non-trump rank strength for
/// cards following the led suit (the suit of `trick[0]`) and 0 for all
/// others.
pub open spec fn trick_score(mode: Gamemode, trick: Seq<Card>, i: int) -> int {
    if has_trump(mode, trick) {
        mode_strength(mode, trick[i])
    } else {
        led_strength(trick[i], trick[0].suit)
    }
}

/// The index of the first maximum of the four scores: a later card wins
/// only with a strictly greater score.
pub open spec fn winning_index(mode: Gamemode, trick: Seq<Card>) -> int {
    let w1: int = if trick_score(mode, trick, 1) > trick_score(mode, trick, 0) {
        1
    } else {
        0
    };
    let w2: int = if trick_score(mode, trick, 2) > trick_score(mode, trick, w1) {
        2
    } else {
        w1
    };
    if trick_score(mode, trick, 3) > trick_score(mode, trick, w2) {
        3
    } else {
        w2
    }
}

/// The four cards of a trick, in seat order, as a sequence.
pub open spec fn trick_of(cards: [&Card; 4]) -> Seq<Card> {
    seq![*cards@[0], *cards@[1], *cards@[2], *cards@[3]]
}

impl Gamemode {
    /// The winning card of a trick: one of the four given cards, in seat
    /// order with `cards[0]` led. If any card is trump under this mode,
    /// the strongest trump wins; otherwise the strongest card of the led
    /// suit wins. Ties are broken towards the earliest seat (they cannot
    /// arise among four distinct cards).
    pub fn winning_card<'a>(&self, cards: [&'a Card; 4]) -> (winner: &'a Card)
        ensures
            *winner == trick_of(cards)[winning_index(*self, trick_of(cards))],
            exists|i: int| 0 <= i < 4 && *winner == trick_of(cards)[i],
            has_trump(*self, trick_of(cards)) ==> mode_is_trump(*self, *winner),
            !has_trump(*self, trick_of(cards)) ==> winner.suit == cards[0].suit,
    {
        match self {
            Gamemode::Sauspiel(_) | Gamemode::Ramsch | Gamemode::Bettel => winner_for_trump(
                Suit::Herz,
                cards,
            ),
            Gamemode::Solo(solo_suit) => winner_for_trump(*solo_suit, cards),
            Gamemode::Wenz(wenz_suit) => winner_for_wenz(Rank::Unter, *wenz_suit, cards),
            Gamemode::Geier(geier_suit) => winner_for_wenz(Rank::Ober, *geier_suit, cards),
        }
    }
}

/// Whether the card is trump: its rank is one of `trump_ranks`, or
/// `trump_suit` is its suit.
pub fn is_trump(card: &Card, trump_ranks: &[Rank], trump_suit: Option<Suit>) -> (r: bool)
    ensures
        r == (trump_ranks@.contains(card.rank) || trump_suit == Some(card.suit)),
{
    let mut i: usize = 0;
    while i < trump_ranks.len()
        invariant
            i <= trump_ranks@.len(),
            forall|k: int| 0 <= k < i ==> trump_ranks@[k] != card.rank,
        decreases trump_ranks@.len() - i,
    {
        if trump_ranks[i] == card.rank {
            return true;
        }
        i = i + 1;
    }
    match trump_suit {
        Some(s) => s == card.suit,
        None => false,
    }
}

/// Trump strength of a card under the classic rule, as executable code.
pub fn trump_strength(card: &Card, trump_suit: Suit) -> (s: u16)
    ensures
        s as int == classic_strength(trump_suit, *card),
{
    match card.rank {
        Rank::Ober => 300 + ober_unter_suit_strength(card.suit),
        Rank::Unter => 200 + ober_unter_suit_strength(card.suit),
        _ => {
            if card.suit == trump_suit {
                100 + non_trump_strength(card.rank) as u16
            } else {
                0
            }
        },
    }
}

/// Trump strength of a card under the single-rank rule, as executable
/// code.
pub fn trump_strength_wenz(card: &Card, rank: Rank, trump_suit: Option<Suit>) -> (s: u16)
    ensures
        s as int == single_rank_strength(rank, trump_suit, *card),
{
    if card.rank == rank {
        200 + ober_unter_suit_strength(card.suit)
    } else {
        let suit_match = match trump_suit {
            Some(t) => t == card.suit,
            None => false,
        };
        if suit_match {
            100 + non_trump_strength(card.rank) as u16
        } else {
            0
        }
    }
}

/// Suit precedence among Obers and among Unters: Eichel > Gras > Herz >
/// Schell.
pub fn ober_unter_suit_strength(suit: Suit) -> (s: u16)
    ensures
        s as int == suit_precedence(suit),
{
    match suit {
        Suit::Eichel => 4,
        Suit::Gras => 3,
        Suit::Herz => 2,
        Suit::Schell => 1,
    }
}

/// Non-trump rank strength: Ass highest, Sieben lowest.
pub fn non_trump_strength(rank: Rank) -> (s: u8)
    ensures
        s as int == rank_strength(rank),
{
    match rank {
        Rank::Ass => 8,
        Rank::Zehn => 7,
        Rank::Koenig => 6,
        Rank::Ober => 5,
        Rank::Unter => 4,
        Rank::Neun => 3,
        Rank::Acht => 2,
        Rank::Sieben => 1,
    }
}

/// The score of one card in the led-suit fallback: its non-trump rank
/// strength if it follows the suit of the led card, else 0.
fn led_suit_strength(card: &Card, led: Suit) -> (s: u16)
    ensures
        s as int == led_strength(*card, led),
{
    if card.suit == led {
        non_trump_strength(card.rank) as u16
    } else {
        0
    }
}

/// The winner under the classic rule: the strongest trump if any card is
/// trump, else the strongest card of the led suit.
fn winner_for_trump<'a>(trump_suit: Suit, cards: [&'a Card; 4]) -> (winner: &'a Card)
    ensures
        ({
            let mode = Gamemode::Solo(trump_suit);
            let trick = trick_of(cards);
            *winner == trick[winning_index(mode, trick)]
        }),
{
    let ghost mode = Gamemode::Solo(trump_suit);
    let ghost trick = trick_of(cards);
    let ranks = [Rank::Ober, Rank::Unter];
    let any_trump = is_trump(cards[0], ranks.as_slice(), Some(trump_suit)) || is_trump(
        cards[1],
        ranks.as_slice(),
        Some(trump_suit),
    ) || is_trump(cards[2], ranks.as_slice(), Some(trump_suit)) || is_trump(
        cards[3],
        ranks.as_slice(),
        Some(trump_suit),
    );
    proof {
        assert(ranks@.contains(Rank::Ober));
        assert(ranks@.contains(Rank::Unter));
        assert(forall|r: Rank| ranks@.contains(r) ==> r == Rank::Ober || r == Rank::Unter);
        assert(any_trump == has_trump(mode, trick));
    }
    if any_trump {
        let mut w: usize = 0;
        if trump_strength(cards[1], trump_suit) > trump_strength(cards[w], trump_suit) {
            w = 1;
        }
        if trump_strength(cards[2], trump_suit) > trump_strength(cards[w], trump_suit) {
            w = 2;
        }
        if trump_strength(cards[3], trump_suit) > trump_strength(cards[w], trump_suit) {
            w = 3;
        }
        proof {
            assert(w as int == winning_index(mode, trick));
        }
        cards[w]
    } else {
        let first_suit = cards[0].suit;
        let mut w: usize = 0;
        if led_suit_strength(cards[1], first_suit) > led_suit_strength(cards[w], first_suit) {
            w = 1;
        }
        if led_suit_strength(cards[2], first_suit) > led_suit_strength(cards[w], first_suit) {
            w = 2;
        }
        if led_suit_strength(cards[3], first_suit) > led_suit_strength(cards[w], first_suit) {
            w = 3;
        }
        proof {
            assert(w as int == winning_index(mode, trick));
        }
        cards[w]
    }
}

/// The winner under the single-rank rule: the strongest trump if any card
/// is trump, else the strongest card of the led suit.
fn winner_for_wenz<'a>(rank: Rank, trump_suit: Option<Suit>, cards: [&'a Card; 4]) -> (winner:
    &'a Card)
    requires
        rank == Rank::Unter || rank == Rank::Ober,
    ensures
        ({
            let mode = if rank == Rank::Unter {
                Gamemode::Wenz(trump_suit)
            } else {
                Gamemode::Geier(trump_suit)
            };
            let trick = trick_of(cards);
            *winner == trick[winning_index(mode, trick)]
        }),
{
    let ghost mode = if rank == Rank::Unter {
        Gamemode::Wenz(trump_suit)
    } else {
        Gamemode::Geier(trump_suit)
    };
    let ghost trick = trick_of(cards);
    let ranks = [rank];
    let any_trump = is_trump(cards[0], ranks.as_slice(), trump_suit) || is_trump(
        cards[1],
        ranks.as_slice(),
        trump_suit,
    ) || is_trump(cards[2], ranks.as_slice(), trump_suit) || is_trump(
        cards[3],
        ranks.as_slice(),
        trump_suit,
    );
    proof {
        assert(ranks@.contains(rank));
        assert(forall|r: Rank| ranks@.contains(r) ==> r == rank);
        assert(any_trump == has_trump(mode, trick));
    }
    if any_trump {
        let mut w: usize = 0;
        if trump_strength_wenz(cards[1], rank, trump_suit) > trump_strength_wenz(
            cards[w],
            rank,
            trump_suit,
        ) {
            w = 1;
        }
        if trump_strength_wenz(cards[2], rank, trump_suit) > trump_strength_wenz(
            cards[w],
            rank,
            trump_suit,
        ) {
            w = 2;
        }
        if trump_strength_wenz(cards[3], rank, trump_suit) > trump_strength_wenz(
            cards[w],
            rank,
            trump_suit,
        ) {
            w = 3;
        }
        proof {
            assert(w as int == winning_index(mode, trick));
        }
        cards[w]
    } else {
        let first_suit = cards[0].suit;
        let mut w: usize = 0;
        if led_suit_strength(cards[1], first_suit) > led_suit_strength(cards[w], first_suit) {
            w = 1;
        }
        if led_suit_strength(cards[2], first_suit) > led_suit_strength(cards[w], first_suit) {
            w = 2;
        }
        if led_suit_strength(cards[3], first_suit) > led_suit_strength(cards[w], first_suit) {
            w = 3;
        }
        proof {
            assert(w as int == winning_index(mode, trick));
        }
        cards[w]
    }
}

/// The winning index is always one of the four seats, its score is
/// maximal, and every earlier seat scores strictly less.
pub proof fn lemma_winning_index_is_first_max(mode: Gamemode, trick: Seq<Card>)
    requires
        trick.len() == 4,
    ensures
        0 <= winning_index(mode, trick) < 4,
        forall|j: int|
            0 <= j < 4 ==> #[trigger] trick_score(mode, trick, j) <= trick_score(
                mode,
                trick,
                winning_index(mode, trick),
            ),
        forall|j: int|
            0 <= j < winning_index(mode, trick) ==> #[trigger] trick_score(mode, trick, j)
                < trick_score(mode, trick, winning_index(mode, trick)),
{
}

/// A card is trump exactly when its trump strength is positive, and
/// trump strength never exceeds 304.
pub proof fn lemma_mode_strength_positive(mode: Gamemode, c: Card)
    ensures
        mode_is_trump(mode, c) <==> mode_strength(mode, c) > 0,
        mode_strength(mode, c) <= 304,
{
}

/// Trump dominance: whenever a trick holds at least one trump card, the
/// winning card is itself trump.
pub proof fn lemma_trump_dominance(mode: Gamemode, trick: Seq<Card>)
    requires
        trick.len() == 4,
        has_trump(mode, trick),
    ensures
        mode_is_trump(mode, trick[winning_index(mode, trick)]),
{
    let w = winning_index(mode, trick);
    let i = choose|i: int| 0 <= i < trick.len() && mode_is_trump(mode, trick[i]);
    lemma_winning_index_is_first_max(mode, trick);
    lemma_mode_strength_positive(mode, trick[i]);
    lemma_mode_strength_positive(mode, trick[w]);
}

/// Led-suit fallback: whenever a trick holds no trump card, the winning
/// card follows the suit of the led card.
pub proof fn lemma_led_suit_fallback(mode: Gamemode, trick: Seq<Card>)
    requires
        trick.len() == 4,
        !has_trump(mode, trick),
    ensures
        trick[winning_index(mode, trick)].suit == trick[0].suit,
{
    let w = winning_index(mode, trick);
    lemma_winning_index_is_first_max(mode, trick);
    assert(trick_score(mode, trick, 0) == rank_strength(trick[0].rank));
    assert(rank_strength(trick[0].rank) >= 1);
}

/// Suit precedence among Obers: in any mode of the classic trump family,
/// an Ober of a higher-precedence suit always beats an Ober of a
/// lower-precedence suit, whatever their seats.
pub proof fn lemma_ober_suit_precedence(mode: Gamemode, trick: Seq<Card>, i: int, j: int)
    requires
        classic_family(mode),
        trick.len() == 4,
        0 <= i < 4,
        0 <= j < 4,
        trick[i].rank == Rank::Ober,
        trick[j].rank == Rank::Ober,
        suit_precedence(trick[i].suit) > suit_precedence(trick[j].suit),
    ensures
        winning_index(mode, trick) != j,
{
    let w = winning_index(mode, trick);
    lemma_winning_index_is_first_max(mode, trick);
    assert(has_trump(mode, trick));
    assert(trick_score(mode, trick, i) > trick_score(mode, trick, j));
}

} // verus!
