//! Top-level game states and their sub-states.
//!
//! The game moves between loading, menu, settings and play. Two
//! sub-states exist only while the game is in play: whether it is
//! paused, and whether a combat encounter is active. Entering play
//! creates each sub-state at its default; leaving play removes it.

use vstd::prelude::*;

verus! {

/// The top-level state of the game.
#[derive(Clone, Copy, Debug, PartialEq, Eq, Hash, Structural)]
pub enum GameState {
    Loading,
    Playing,
    Menu,
    Settings,
}

/// Whether the running game is paused; exists only while playing.
#[derive(Clone, Copy, Debug, PartialEq, Eq, PartialOrd, Ord, Hash, Structural)]
pub enum PauseState {
    Unpaused,
    Paused,
}

/// Whether a combat encounter is active; exists only while playing.
#[derive(Clone, Copy, Debug, PartialEq, Eq, PartialOrd, Ord, Hash, Structural)]
pub enum CombatState {
    Out,
    In,
}

impl Default for GameState {
    /// The game starts loading its assets.
    fn default() -> (s: Self)
        ensures
            s == GameState::Loading,
    {
        GameState::Loading
    }
}

impl Default for PauseState {
    fn default() -> (s: Self)
        ensures
            s == PauseState::Unpaused,
    {
        PauseState::Unpaused
    }
}

impl Default for CombatState {
    /// A fresh play session opens inside a combat encounter.
    fn default() -> (s: Self)
        ensures
            s == CombatState::In,
    {
        CombatState::In
    }
}

/// The pause sub-state that entering `game` creates: present, at its
/// default, exactly while the game is in play.
pub fn initial_pause_state(game: &GameState) -> (r: Option<PauseState>)
    ensures
        r == if *game == GameState::Playing {
            Some(PauseState::Unpaused)
        } else {
            None::<PauseState>
        },
{
    match game {
        GameState::Playing => Some(PauseState::Unpaused),
        _ => None,
    }
}

/// The combat sub-state that entering `game` creates: present, at its
/// default, exactly while the game is in play.
pub fn initial_combat_state(game: &GameState) -> (r: Option<CombatState>)
    ensures
        r == if *game == GameState::Playing {
            Some(CombatState::In)
        } else {
            None::<CombatState>
        },
{
    match game {
        GameState::Playing => Some(CombatState::In),
        _ => None,
    }
}

} // verus!
