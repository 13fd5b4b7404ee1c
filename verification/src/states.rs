//! The phases of a game, of a move's animation and of the fade between levels.

use vstd::prelude::*;

verus! {

/// The phase of the game.
#[derive(Debug, Clone, Copy, PartialEq, Eq, Hash, Structural)]
pub enum GameState {
    LoadAssets,
    MainMenu,
    MapGenerate,
    Spawning,
    PlayerTurn,
    NPCTurn,
    GameOver,
}

/// Whether a move is being shown. While one is, no other move begins.
#[derive(Debug, Clone, Copy, PartialEq, Eq, Hash, Structural)]
pub enum AnimationState {
    Idle,
    Animating,
}

/// Where the fade between two levels stands.
#[derive(Debug, Clone, Copy, PartialEq, Eq, Hash, Structural)]
pub enum FadeState {
    Hidden,
    In,
    Out,
}

} // verus!
