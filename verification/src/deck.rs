//! The deck: the full 32-card universe in canonical order, depletion by
//! draws from the back, uniform shuffling, and the round-robin deal of
//! 32 cards into four 8-card hands.

use vstd::prelude::*;

use crate::card::Card;
use crate::card::Rank;
use crate::card::Suit;

use rand::seq::SliceRandom;

verus! {

/// An ordered deck of cards. It is created full (the 32-card universe in
/// canonical order) and depleted from the back by draws; a shuffle
/// permutes the remaining cards in place.
pub struct Deck {
    cards: Vec<Card>,
}

/// The suit at position `i` of the canonical suit order.
pub open spec fn suit_of_index(i: int) -> Suit {
    if i == 0 {
        Suit::Eichel
    } else if i == 1 {
        Suit::Gras
    } else if i == 2 {
        Suit::Herz
    } else {
        Suit::Schell
    }
}

/// The rank at position `i` of the canonical rank order.
pub open spec fn rank_of_index(i: int) -> Rank {
    if i == 0 {
        Rank::Ass
    } else if i == 1 {
        Rank::Zehn
    } else if i == 2 {
        Rank::Koenig
    } else if i == 3 {
        Rank::Ober
    } else if i == 4 {
        Rank::Unter
    } else if i == 5 {
        Rank::Neun
    } else if i == 6 {
        Rank::Acht
    } else {
        Rank::Sieben
    }
}

/// The card at position `i` of the canonical order: suit-major,
/// rank-minor, eight cards per suit.
pub open spec fn card_of_index(i: int) -> Card {
    Card { suit: suit_of_index(i / 8), rank: rank_of_index(i % 8) }
}

/// The full 32-card universe in canonical order.
pub open spec fn full_deck() -> Seq<Card> {
    Seq::new(32, |i: int| card_of_index(i))
}

/// No card occurs twice in `s`.
pub open spec fn distinct_cards(s: Seq<Card>) -> bool {
    forall|i: int, j: int| 0 <= i < j < s.len() ==> s[i] != s[j]
}

/// The hand that seat `h` receives when 32 cards are dealt round-robin
/// from the back of `s`: draw number `k` (counting from 0) goes to seat
/// `k % 4`, so seat `h` gets draws `h`, `h + 4`, ..., `h + 28`.
pub open spec fn dealt_hand(s: Seq<Card>, h: int) -> Seq<Card> {
    Seq::new(8, |r: int| s[s.len() - 1 - (4 * r + h)])
}

impl View for Deck {
    type V = Seq<Card>;

    closed spec fn view(&self) -> Seq<Card> {
        self.cards@
    }
}

/// The suit at position `i` of the canonical suit order.
fn suit_at(i: usize) -> (s: Suit)
    requires
        i < 4,
    ensures
        s == suit_of_index(i as int),
{
    if i == 0 {
        Suit::Eichel
    } else if i == 1 {
        Suit::Gras
    } else if i == 2 {
        Suit::Herz
    } else {
        Suit::Schell
    }
}

/// The rank at position `i` of the canonical rank order.
fn rank_at(i: usize) -> (r: Rank)
    requires
        i < 8,
    ensures
        r == rank_of_index(i as int),
{
    if i == 0 {
        Rank::Ass
    } else if i == 1 {
        Rank::Zehn
    } else if i == 2 {
        Rank::Koenig
    } else if i == 3 {
        Rank::Ober
    } else if i == 4 {
        Rank::Unter
    } else if i == 5 {
        Rank::Neun
    } else if i == 6 {
        Rank::Acht
    } else {
        Rank::Sieben
    }
}

impl Deck {
    /// A full deck: the 32-card universe in canonical order.
    pub fn new() -> (d: Deck)
        ensures
            d@ == full_deck(),
    {
        let mut cards: Vec<Card> = Vec::new();
        let mut i: usize = 0;
        while i < 32
            invariant
                i <= 32,
                cards@.len() == i,
                forall|k: int| 0 <= k < i ==> cards@[k] == card_of_index(k),
            decreases 32 - i,
        {
            proof {
                vstd::arithmetic::div_mod::lemma_fundamental_div_mod(i as int, 8);
            }
            let suit = suit_at(i / 8);
            let rank = rank_at(i % 8);
            cards.push(Card { suit, rank });
            i = i + 1;
        }
        let d = Deck { cards };
        proof {
            assert(d@ =~= full_deck());
        }
        d
    }

    /// Removes and returns the last card, or `None` on an empty deck.
    pub fn draw(&mut self) -> (c: Option<Card>)
        ensures
            old(self)@.len() == 0 ==> c is None && final(self)@ == old(self)@,
            old(self)@.len() > 0 ==> c == Some(old(self)@.last()) && final(self)@ == old(
                self,
            )@.drop_last(),
    {
        self.cards.pop()
    }

    /// Uniformly permutes the remaining cards in place.
    ///
    /// Relies on rand's `SliceRandom::shuffle`: a Fisher-Yates pass of
    /// element swaps, so the result is an in-place permutation of the
    /// slice and the multiset of cards is unchanged.
    #[verifier::external_body]
    pub fn shuffle(&mut self)
        ensures
            final(self)@.len() == old(self)@.len(),
            final(self)@.to_multiset() == old(self)@.to_multiset(),
    {
        self.cards.shuffle(&mut rand::rng());
    }

    /// Deals 32 cards from the back of the deck into four 8-card hands in
    /// round-robin order (one card per hand per round), or returns `None`
    /// and leaves the deck unchanged if fewer than 32 cards remain.
    pub fn deal_4x8(&mut self) -> (r: Option<[Vec<Card>; 4]>)
        ensures
            old(self)@.len() < 32 ==> r is None && final(self)@ == old(self)@,
            old(self)@.len() >= 32 ==> final(self)@ == old(self)@.take(old(self)@.len() - 32),
            old(self)@.len() >= 32 ==> (r matches Some(hands) && forall|h: int|
                0 <= h < 4 ==> (#[trigger] hands@[h])@ == dealt_hand(old(self)@, h)),
    {
        if self.cards.len() < 32 {
            return None;
        }
        let ghost s = self@;
        let ghost len = self@.len() as int;
        let mut h0: Vec<Card> = Vec::new();
        let mut h1: Vec<Card> = Vec::new();
        let mut h2: Vec<Card> = Vec::new();
        let mut h3: Vec<Card> = Vec::new();
        let mut round: usize = 0;
        while round < 8
            invariant
                round <= 8,
                len == s.len(),
                len >= 32,
                self@ == s.take(len - 4 * round),
                h0@.len() == round,
                h1@.len() == round,
                h2@.len() == round,
                h3@.len() == round,
                forall|r: int| 0 <= r < round ==> h0@[r] == s[len - 1 - (4 * r + 0)],
                forall|r: int| 0 <= r < round ==> h1@[r] == s[len - 1 - (4 * r + 1)],
                forall|r: int| 0 <= r < round ==> h2@[r] == s[len - 1 - (4 * r + 2)],
                forall|r: int| 0 <= r < round ==> h3@[r] == s[len - 1 - (4 * r + 3)],
            decreases 8 - round,
        {
            proof {
                assert(s.take(len - 4 * round).drop_last() =~= s.take(len - 4 * round - 1));
                assert(s.take(len - 4 * round - 1).drop_last() =~= s.take(len - 4 * round - 2));
                assert(s.take(len - 4 * round - 2).drop_last() =~= s.take(len - 4 * round - 3));
                assert(s.take(len - 4 * round - 3).drop_last() =~= s.take(len - 4 * round - 4));
            }
            let c0 = self.draw().unwrap();
            h0.push(c0);
            let c1 = self.draw().unwrap();
            h1.push(c1);
            let c2 = self.draw().unwrap();
            h2.push(c2);
            let c3 = self.draw().unwrap();
            h3.push(c3);
            round = round + 1;
        }
        let hands = [h0, h1, h2, h3];
        proof {
            assert(hands@[0]@ =~= dealt_hand(s, 0));
            assert(hands@[1]@ =~= dealt_hand(s, 1));
            assert(hands@[2]@ =~= dealt_hand(s, 2));
            assert(hands@[3]@ =~= dealt_hand(s, 3));
        }
        Some(hands)
    }

    /// Read-only access to the remaining cards in current order.
    pub fn iter(&self) -> (r: &Vec<Card>)
        ensures
            r@ == self@,
    {
        &self.cards
    }
}

impl Default for Deck {
    /// Same as `Deck::new`: the full canonical deck.
    fn default() -> (d: Deck)
        ensures
            d@ == full_deck(),
    {
        Deck::new()
    }
}

/// The canonical full deck holds exactly 32 pairwise-distinct cards.
pub proof fn lemma_full_deck_distinct()
    ensures
        full_deck().len() == 32,
        distinct_cards(full_deck()),
{
    assert forall|i: int, j: int| 0 <= i < j < 32 implies full_deck()[i] != full_deck()[j] by {
        vstd::arithmetic::div_mod::lemma_fundamental_div_mod(i, 8);
        vstd::arithmetic::div_mod::lemma_fundamental_div_mod(j, 8);
        assert(0 <= i / 8 < 4);
        assert(0 <= i % 8 < 8);
        assert(0 <= j / 8 < 4);
        assert(0 <= j % 8 < 8);
    }
}

/// Dealing round-robin from a duplicate-free deck of at least 32 cards
/// yields four pairwise-disjoint 8-card hands whose cards are exactly
/// the last 32 cards of the deck: no hand card occurs twice anywhere,
/// every hand card is one of the 32 dealt positions, and every dealt
/// position lands in exactly one hand.
pub proof fn lemma_deal_partition(s: Seq<Card>)
    requires
        s.len() >= 32,
        distinct_cards(s),
    ensures
        forall|h: int| 0 <= h < 4 ==> (#[trigger] dealt_hand(s, h)).len() == 8,
        forall|h1: int, r1: int, h2: int, r2: int|
            0 <= h1 < 4 && 0 <= r1 < 8 && 0 <= h2 < 4 && 0 <= r2 < 8 && (h1 != h2 || r1 != r2)
                ==> #[trigger] dealt_hand(s, h1)[r1] != #[trigger] dealt_hand(s, h2)[r2],
        forall|h: int, r: int|
            0 <= h < 4 && 0 <= r < 8 ==> #[trigger] dealt_hand(s, h)[r] == s[s.len() - 1 - (4 * r
                + h)] && s.len() - 32 <= s.len() - 1 - (4 * r + h) < s.len(),
        forall|k: int|
            s.len() - 32 <= k < s.len() ==> #[trigger] dealt_hand(s, (s.len() - 1 - k) % 4)[(s.len()
                - 1 - k) / 4] == s[k],
{
    assert forall|h1: int, r1: int, h2: int, r2: int|
        0 <= h1 < 4 && 0 <= r1 < 8 && 0 <= h2 < 4 && 0 <= r2 < 8 && (h1 != h2 || r1
            != r2) implies #[trigger] dealt_hand(s, h1)[r1] != #[trigger] dealt_hand(s, h2)[r2] by {
        assert(4 * r1 + h1 != 4 * r2 + h2);
        let a = s.len() - 1 - (4 * r1 + h1);
        let b = s.len() - 1 - (4 * r2 + h2);
        assert(a != b);
        if a < b {
            assert(s[a] != s[b]);
        } else {
            assert(s[b] != s[a]);
        }
    }
    assert forall|k: int| s.len() - 32 <= k < s.len() implies #[trigger] dealt_hand(
        s,
        (s.len() - 1 - k) % 4,
    )[(s.len() - 1 - k) / 4] == s[k] by {
        let d = s.len() - 1 - k;
        vstd::arithmetic::div_mod::lemma_fundamental_div_mod(d, 4);
        assert(0 <= d % 4 < 4);
        assert(0 <= d / 4 < 8);
    }
}

} // verus!
