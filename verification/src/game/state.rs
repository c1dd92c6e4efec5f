//! Play state of a game and the level that the score reaches.

use vstd::prelude::*;

use crate::model::AppState;

verus! {

/// Phase of a game: before the first touch, while playing, after the last life.
#[derive(Debug, Clone, Copy, PartialEq, Eq, Structural)]
pub enum PlayState {
    /// Start screen: the game waits for a first touch.
    NotStarted,
    /// The game runs.
    Playing,
    /// All lives are lost.
    GameOver,
}

impl PlayState {
    /// Starts (or restarts) the game.
    pub fn start(&mut self)
        ensures
            *final(self) == PlayState::Playing,
    {
        *self = PlayState::Playing;
    }

    /// Ends the game.
    pub fn game_over(&mut self)
        ensures
            *final(self) == PlayState::GameOver,
    {
        *self = PlayState::GameOver;
    }

    /// Back to the start screen for a new game.
    pub fn reset(&mut self)
        ensures
            *final(self) == PlayState::NotStarted,
    {
        *self = PlayState::NotStarted;
    }

    /// Is the game running?
    pub fn is_playing(self) -> (r: bool)
        ensures
            r == (self == PlayState::Playing),
    {
        match self {
            PlayState::Playing => true,
            _ => false,
        }
    }

    /// Is the game over?
    pub fn is_game_over(self) -> (r: bool)
        ensures
            r == (self == PlayState::GameOver),
    {
        match self {
            PlayState::GameOver => true,
            _ => false,
        }
    }

    /// Is the game still waiting for its first touch?
    pub fn is_not_started(self) -> (r: bool)
        ensures
            r == (self == PlayState::NotStarted),
    {
        match self {
            PlayState::NotStarted => true,
            _ => false,
        }
    }
}

/// A game is in exactly one of its three phases.
pub proof fn lemma_play_state_exclusive(s: PlayState)
    ensures
        (s == PlayState::NotStarted) || (s == PlayState::Playing) || (s == PlayState::GameOver),
        !((s == PlayState::NotStarted) && (s == PlayState::Playing)),
        !((s == PlayState::NotStarted) && (s == PlayState::GameOver)),
        !((s == PlayState::Playing) && (s == PlayState::GameOver)),
{
}

/// The level that a score reaches: one more than the number of whole fives in it.
pub open spec fn level_of(score: int) -> int {
    1 + score / 5
}

/// The level of the game: `1 + score / 5`.
pub fn level(state: &AppState) -> (r: i32)
    requires
        state.wf(),
    ensures
        r == level_of(state.score as int),
{
    1 + state.score / 5
}

/// The level never falls when the score grows, and starts at 1.
pub proof fn lemma_level_monotonic(s1: int, s2: int)
    requires
        0 <= s1 <= s2,
    ensures
        1 <= level_of(s1) <= level_of(s2),
{
    vstd::arithmetic::div_mod::lemma_div_is_ordered(s1, s2, 5);
}

} // verus!
