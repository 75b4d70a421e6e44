//! Main menu buttons.

use vstd::prelude::*;
use crate::menu::cleanup::{despawn_roots, ids_of_kinds, EntityKind, WorldEntity};
use crate::menu::types::{any_pressed, button_pressed, GameState, Interaction};

verus! {

/// What the main menu does this frame: the state to move to, and whether to
/// quit the application.
#[derive(Clone, Copy, Debug)]
pub struct MainMenuOutcome {
    pub next_state: Option<GameState>,
    pub exit: bool,
}

/// Start opens the scenario picker, Load opens the slot picker (the later
/// request wins when both are pressed), Quit exits.
pub fn menu_button_system(
    start: &Vec<Interaction>,
    load: &Vec<Interaction>,
    quit: &Vec<Interaction>,
) -> (outcome: MainMenuOutcome)
    ensures
        outcome.next_state == (if any_pressed(load@) {
            Some(GameState::LoadGameMenu)
        } else if any_pressed(start@) {
            Some(GameState::ScenarioSelect)
        } else {
            None
        }),
        outcome.exit == any_pressed(quit@),
{
    let mut next_state: Option<GameState> = None;
    if button_pressed(start) {
        next_state = Some(GameState::ScenarioSelect);
    }
    if button_pressed(load) {
        next_state = Some(GameState::LoadGameMenu);
    }
    MainMenuOutcome { next_state, exit: button_pressed(quit) }
}

/// Despawns the main menu: the entities to remove.
pub fn cleanup_main_menu(entities: &Vec<WorldEntity>) -> (despawn: Vec<u64>)
    ensures
        despawn@ == ids_of_kinds(entities@, seq![EntityKind::MainMenuRoot]),
{
    despawn_roots(entities, EntityKind::MainMenuRoot)
}

} // verus!
