//! Players: a shared base (identity and display name), a human player and
//! a computer-controlled player, each owning a hand of cards. Playing a
//! card removes it from the owned hand; an empty hand is reported as an
//! explicit error, never a panic.

use vstd::prelude::*;

use crate::card::Card;

verus! {

/// Errors a player can report: the hand holds no card to play.
#[derive(Debug, Clone, Copy, PartialEq, Eq, Structural)]
pub enum PlayerError {
    NoCards,
}

impl PlayerError {
    /// A human-readable description of the error.
    pub fn message(&self) -> (r: &'static str)
        ensures
            r@ == "no cards available to play"@,
    {
        match self {
            PlayerError::NoCards => "no cards available to play",
        }
    }
}

/// The identity shared by every kind of player: a numeric id and a
/// display name.
pub struct PlayerBase {
    pub id: u32,
    pub name: String,
}

impl PlayerBase {
    pub fn new(id: u32, name: String) -> (p: PlayerBase)
        ensures
            p.id == id,
            p.name@ == name@,
    {
        PlayerBase { id, name }
    }

    pub fn id(&self) -> (r: u32)
        ensures
            r == self.id,
    {
        self.id
    }

    pub fn name(&self) -> (r: &str)
        ensures
            r@ == self.name@,
    {
        self.name.as_str()
    }

    pub fn set_name(&mut self, name: String)
        ensures
            final(self).id == old(self).id,
            final(self).name@ == name@,
    {
        self.name = name;
    }

    /// Plays the last card of the given hand, or reports `NoCards` and
    /// leaves the hand unchanged if it is empty.
    pub fn play_card(&mut self, hand: &mut Vec<Card>) -> (r: Result<Card, PlayerError>)
        ensures
            *final(self) == *old(self),
            old(hand)@.len() == 0 ==> r == Err::<Card, PlayerError>(PlayerError::NoCards) && final(hand)@ == old(hand)@,
            old(hand)@.len() > 0 ==> r == Ok::<Card, PlayerError>(old(hand)@.last()) && final(hand)@ == old(hand)@.drop_last(),
    {
        match hand.pop() {
            Some(c) => Ok(c),
            None => Err(PlayerError::NoCards),
        }
    }
}

/// Access to the shared base of a player. `base_spec` is the
/// specification-level value of that base; `base` and `base_mut` expose
/// it, and the identity and name operations go through it.
pub trait PlayerBaseAccess {
    spec fn base_spec(&self) -> PlayerBase;

    fn base(&self) -> (r: &PlayerBase)
        ensures
            *r == self.base_spec(),
    ;

    fn base_mut(&mut self) -> (r: &mut PlayerBase)
        ensures
            *r == old(self).base_spec(),
            final(self).base_spec() == *final(r),
    ;

    fn id(&self) -> (r: u32)
        ensures
            r == self.base_spec().id,
    {
        self.base().id()
    }

    fn name(&self) -> (r: &str)
        ensures
            r@ == self.base_spec().name@,
    {
        self.base().name()
    }

    fn set_name(&mut self, name: String)
        ensures
            final(self).base_spec().id == old(self).base_spec().id,
            final(self).base_spec().name@ == name@,
    {
        self.base_mut().set_name(name);
    }
}

/// A player driven from outside the core: it plays from a hand that the
/// caller owns, taking the last card.
pub trait ExternalPlayer: PlayerBaseAccess {
    fn play_card(&mut self, hand: &mut Vec<Card>) -> (r: Result<Card, PlayerError>)
        ensures
            final(self).base_spec() == old(self).base_spec(),
            old(hand)@.len() == 0 ==> r == Err::<Card, PlayerError>(PlayerError::NoCards) && final(hand)@ == old(hand)@,
            old(hand)@.len() > 0 ==> r == Ok::<Card, PlayerError>(old(hand)@.last()) && final(hand)@ == old(hand)@.drop_last(),
    {
        self.base_mut().play_card(hand)
    }
}

/// A player that owns its hand. Playing removes the card at the player's
/// own `play_position` and returns it; receiving appends a card; an empty
/// hand is reported as `NoCards` with the hand left unchanged.
pub trait InternalPlayer: PlayerBaseAccess {
    spec fn hand_spec(&self) -> Seq<Card>;

    /// The position of the hand this player plays when left to its own
    /// policy; always in range while the hand is not empty.
    spec fn play_position(&self) -> int;

    fn play_card_from_hand(&mut self) -> (r: Result<Card, PlayerError>)
        ensures
            final(self).base_spec() == old(self).base_spec(),
            old(self).hand_spec().len() == 0 ==> r == Err::<Card, PlayerError>(PlayerError::NoCards)
                && final(self).hand_spec() == old(self).hand_spec(),
            old(self).hand_spec().len() > 0 ==> 0 <= old(self).play_position() < old(
                self,
            ).hand_spec().len() && r == Ok::<Card, PlayerError>(
                old(self).hand_spec()[old(self).play_position()],
            ) && final(self).hand_spec() == old(self).hand_spec().remove(
                old(self).play_position(),
            ),
    ;

    fn receive_card(&mut self, card: Card)
        ensures
            final(self).base_spec() == old(self).base_spec(),
            final(self).hand_spec() == old(self).hand_spec().push(card),
    ;

    fn set_hand(&mut self, hand: Vec<Card>)
        ensures
            final(self).base_spec() == old(self).base_spec(),
            final(self).hand_spec() == hand@,
    ;

    fn hand(&self) -> (r: &Vec<Card>)
        ensures
            r@ == self.hand_spec(),
    ;
}

/// A human player. The interactive choice of a card belongs to the caller;
/// the player itself only applies a choice to its hand.
pub struct HumanPlayer {
    pub base: PlayerBase,
    pub hand: Vec<Card>,
}

impl HumanPlayer {
    pub fn new(id: u32, name: String) -> (p: HumanPlayer)
        ensures
            p.base.id == id,
            p.base.name@ == name@,
            p.hand@ == Seq::<Card>::empty(),
    {
        HumanPlayer { base: PlayerBase::new(id, name), hand: Vec::new() }
    }

    /// Applies a card choice to the hand: a valid index plays exactly that
    /// card; no choice, or an out-of-range index, falls back to the last
    /// card. An empty hand is reported as `NoCards`.
    pub fn play_card_choice(&mut self, choice: Option<usize>) -> (r: Result<Card, PlayerError>)
        ensures
            final(self).base == old(self).base,
            old(self).hand@.len() == 0 ==> r == Err::<Card, PlayerError>(PlayerError::NoCards)
                && final(self).hand@ == old(self).hand@,
            old(self).hand@.len() > 0 ==> match choice {
                Some(idx) if idx < old(self).hand@.len() => r == Ok::<Card, PlayerError>(
                    old(self).hand@[idx as int],
                ) && final(self).hand@ == old(self).hand@.remove(idx as int),
                _ => r == Ok::<Card, PlayerError>(old(self).hand@.last()) && final(self).hand@
                    == old(self).hand@.drop_last(),
            },
    {
        if self.hand.len() == 0 {
            return Err(PlayerError::NoCards);
        }
        if let Some(idx) = choice {
            if idx < self.hand.len() {
                return Ok(self.hand.remove(idx));
            }
        }
        match self.hand.pop() {
            Some(c) => Ok(c),
            None => Err(PlayerError::NoCards),
        }
    }
}

impl PlayerBaseAccess for HumanPlayer {
    open spec fn base_spec(&self) -> PlayerBase {
        self.base
    }

    fn base(&self) -> (r: &PlayerBase) {
        &self.base
    }

    fn base_mut(&mut self) -> (r: &mut PlayerBase) {
        &mut self.base
    }
}

impl InternalPlayer for HumanPlayer {
    open spec fn hand_spec(&self) -> Seq<Card> {
        self.hand@
    }

    /// Left to itself, a human player falls back to the last card.
    open spec fn play_position(&self) -> int {
        self.hand@.len() - 1
    }

    /// Without an interactive choice, a human player falls back to the
    /// last card of the hand.
    fn play_card_from_hand(&mut self) -> (r: Result<Card, PlayerError>) {
        let ghost h = self.hand@;
        let r = self.play_card_choice(None);
        proof {
            if h.len() > 0 {
                assert(h.drop_last() =~= h.remove(h.len() - 1));
            }
        }
        r
    }

    fn receive_card(&mut self, card: Card) {
        self.hand.push(card);
    }

    fn set_hand(&mut self, hand: Vec<Card>) {
        self.hand = hand;
    }

    fn hand(&self) -> (r: &Vec<Card>) {
        &self.hand
    }
}

/// A computer-controlled player with a fixed policy: it always plays the
/// first card of its hand.
pub struct NpcPlayer {
    pub base: PlayerBase,
    pub hand: Vec<Card>,
}

impl NpcPlayer {
    pub fn new(id: u32, name: String) -> (p: NpcPlayer)
        ensures
            p.base.id == id,
            p.base.name@ == name@,
            p.hand@ == Seq::<Card>::empty(),
    {
        NpcPlayer { base: PlayerBase::new(id, name), hand: Vec::new() }
    }
}

impl PlayerBaseAccess for NpcPlayer {
    open spec fn base_spec(&self) -> PlayerBase {
        self.base
    }

    fn base(&self) -> (r: &PlayerBase) {
        &self.base
    }

    fn base_mut(&mut self) -> (r: &mut PlayerBase) {
        &mut self.base
    }
}

impl InternalPlayer for NpcPlayer {
    open spec fn hand_spec(&self) -> Seq<Card> {
        self.hand@
    }

    /// The fixed policy: always the first card.
    open spec fn play_position(&self) -> int {
        0
    }

    /// The fixed policy: the first card of the hand.
    fn play_card_from_hand(&mut self) -> (r: Result<Card, PlayerError>) {
        if self.hand.len() == 0 {
            Err(PlayerError::NoCards)
        } else {
            Ok(self.hand.remove(0))
        }
    }

    fn receive_card(&mut self, card: Card) {
        self.hand.push(card);
    }

    fn set_hand(&mut self, hand: Vec<Card>) {
        self.hand = hand;
    }

    fn hand(&self) -> (r: &Vec<Card>) {
        &self.hand
    }
}

} // verus!
