//! The passage from one phase of the game to the next.

use crate::search::first_match;
use crate::search::lemma_first_match_found;
use crate::states::FadeState;
use crate::states::GameState;
use crate::units::table::is_npc;
use crate::units::table::UnitEntryModel;
use crate::units::table::Units;
use crate::units::UnitKind;
use vstd::prelude::*;

verus! {

/// The phase that follows once everything is loaded: the menu.
pub open spec fn phase_after_loading(game_state: GameState) -> GameState {
    if game_state == GameState::LoadAssets {
        GameState::MainMenu
    } else {
        game_state
    }
}

/// Leaves the loading phase for the menu.
pub fn finish_loading(game_state: &mut GameState)
    ensures
        *final(game_state) == phase_after_loading(*old(game_state)),
{
    if *game_state == GameState::LoadAssets {
        *game_state = GameState::MainMenu;
    }
}

/// The phase that follows when the player confirms: from the menu a level is
/// generated, and from the end of a game the menu comes back.
pub open spec fn phase_after_confirm(game_state: GameState) -> GameState {
    match game_state {
        GameState::MainMenu => GameState::MapGenerate,
        GameState::GameOver => GameState::MainMenu,
        _ => game_state,
    }
}

/// Takes the player's confirmation in a menu.
pub fn confirm(game_state: &mut GameState)
    ensures
        *final(game_state) == phase_after_confirm(*old(game_state)),
{
    match *game_state {
        GameState::MainMenu => {
            *game_state = GameState::MapGenerate;
        },
        GameState::GameOver => {
            *game_state = GameState::MainMenu;
        },
        _ => {},
    }
}

/// Whether the level is cleared: no unit but the player is left.
pub open spec fn level_cleared(units: Seq<UnitEntryModel>) -> bool {
    first_match(units, is_npc()) is None
}

/// Lets the screen fade once the level is cleared.
pub fn next_level(units: &Units, fade_state: &mut FadeState)
    ensures
        *final(fade_state) == if level_cleared(units@) {
            FadeState::In
        } else {
            *old(fade_state)
        },
{
    let mut i: usize = 0;
    while i < units.entries.len()
        invariant
            0 <= i <= units.entries@.len(),
            forall|j: int| 0 <= j < i ==> !is_npc()(#[trigger] units@[j]),
        decreases units.entries@.len() - i,
    {
        if units.entries[i].unit.kind != UnitKind::Player {
            proof {
                lemma_first_match_found(units@, is_npc(), i as int);
            }
            return ;
        }
        i = i + 1;
    }
    *fade_state = FadeState::In;
}

/// The phase that follows once the screen has faded: from the menu and from
/// the player's turn, a new level is generated.
pub open spec fn phase_after_fade(game_state: GameState) -> GameState {
    match game_state {
        GameState::PlayerTurn => GameState::MapGenerate,
        GameState::MainMenu => GameState::MapGenerate,
        _ => game_state,
    }
}

/// Ends the fade to black: the screen fades back in, over a new level where
/// one is due.
pub fn finish_fade_in(fade_state: &mut FadeState, game_state: &mut GameState)
    ensures
        *final(fade_state) == FadeState::Out,
        *final(game_state) == phase_after_fade(*old(game_state)),
{
    *fade_state = FadeState::Out;
    match *game_state {
        GameState::PlayerTurn => {
            *game_state = GameState::MapGenerate;
        },
        GameState::MainMenu => {
            *game_state = GameState::MapGenerate;
        },
        _ => {},
    }
}

/// Ends the fade back in.
pub fn finish_fade_out(fade_state: &mut FadeState)
    ensures
        *final(fade_state) == FadeState::Hidden,
{
    *fade_state = FadeState::Hidden;
}

} // verus!
