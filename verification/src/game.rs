//! The screens of the game and the factions that play it.

use vstd::prelude::*;
use crate::ids::FactionId;

verus! {

/// The screen the game is on.
#[derive(Debug, Clone, Copy, PartialEq, Eq, Hash, Structural)]
pub enum GameState {
    MainMenu,
    WorldMap,
    Battle,
    Diplomacy,
}

impl Default for GameState {
    /// The game starts in the main menu.
    fn default() -> (state: GameState)
        ensures
            state == GameState::MainMenu,
    {
        GameState::MainMenu
    }
}

/// A power that owns provinces and units. `color` is its colour on the
/// map as red, green, blue and opacity, one byte each from the highest
/// byte down.
#[derive(Debug, Clone, PartialEq, Eq)]
pub struct Faction {
    pub id: FactionId,
    pub name: String,
    pub color: u32,
}

} // verus!
