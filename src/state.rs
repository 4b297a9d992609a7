//! Top-level game states and the collected-card counter.
use vstd::prelude::*;

verus! {

/// Number of cards whose collection ends a round.
pub const DECK_SIZE: u8 = 52;

/// The different states of the game; exactly one is active at a time.
#[derive(Debug, Clone, Copy, PartialEq, Eq, Hash, Structural)]
pub enum GameState {
    /// World is being set up.
    Loading,
    /// Main menu is being displayed.
    Menu,
    /// Cards are being dealt.
    Deal,
    /// Game is in progress; card objects are torn down when it is left.
    Play,
    /// Win screen is being displayed.
    Win,
}

impl Default for GameState {
    fn default() -> (r: GameState)
        ensures
            r == GameState::Loading,
    {
        GameState::Loading
    }
}

/// How many cards the player has collected in the current round.
///
/// Kept below 52 between collections: the collection that reaches 52 ends the
/// round and resets it to 0.
#[derive(Debug)]
pub struct CardsCollected(pub u8);

impl Default for CardsCollected {
    fn default() -> (r: CardsCollected)
        ensures
            r.0 == 0,
    {
        CardsCollected(0)
    }
}

impl CardsCollected {
    /// Counts one more collected card and returns the new count.
    pub fn increment(&mut self) -> (r: u8)
        requires
            old(self).0 < DECK_SIZE,
        ensures
            final(self).0 == old(self).0 + 1,
            r == final(self).0,
    {
        self.0 = self.0 + 1;
        self.0
    }

    /// Starts a fresh round.
    pub fn reset(&mut self)
        ensures
            final(self).0 == 0,
    {
        self.0 = 0;
    }
}

} // verus!
