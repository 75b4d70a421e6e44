//! Game-over overlay buttons.

use vstd::prelude::*;
use crate::menu::cleanup::{despawn_roots, ids_of_kinds, EntityKind, WorldEntity};
use crate::menu::cleanup::{full_lives, PlayerLives};
use crate::menu::types::{any_pressed, button_pressed, GameState, Interaction};

verus! {

/// What the game-over overlay does this frame.
#[derive(Clone, Copy, Debug)]
pub struct GameOverOutcome {
    /// The lives were restored for another run.
    pub play_again: bool,
    pub next_state: Option<GameState>,
    pub exit: bool,
}

/// Enter or Play Again restores the lives and resumes play, and nothing else
/// is looked at; otherwise Quit exits.
pub fn game_over_button_system(
    enter_pressed: bool,
    play_again: &Vec<Interaction>,
    quit: &Vec<Interaction>,
    lives: &mut PlayerLives,
) -> (outcome: GameOverOutcome)
    ensures
        outcome.play_again == (enter_pressed || any_pressed(play_again@)),
        *final(lives) == (if outcome.play_again { full_lives() } else { *old(lives) }),
        outcome.next_state == (if outcome.play_again { Some(GameState::Playing) } else { None }),
        outcome.exit == (!outcome.play_again && any_pressed(quit@)),
{
    if enter_pressed || button_pressed(play_again) {
        lives.reset();
        return GameOverOutcome { play_again: true, next_state: Some(GameState::Playing), exit: false };
    }
    GameOverOutcome { play_again: false, next_state: None, exit: button_pressed(quit) }
}

/// Despawns the game-over overlay: the entities to remove.
pub fn cleanup_game_over(entities: &Vec<WorldEntity>) -> (despawn: Vec<u64>)
    ensures
        despawn@ == ids_of_kinds(entities@, seq![EntityKind::GameOverRoot]),
{
    despawn_roots(entities, EntityKind::GameOverRoot)
}

} // verus!
