//! Scenario picker buttons.

use vstd::prelude::*;
use crate::menu::cleanup::{despawn_roots, ids_of_kinds, EntityKind, WorldEntity};
use crate::menu::types::{any_pressed, button_pressed, GameState, Interaction, SelectedScenario};

verus! {

/// The scenario chosen this frame: the last of Field, Orbit, Comets, Shower
/// (in that order) whose button was pressed, else the one already chosen.
pub open spec fn chosen_scenario(
    current: SelectedScenario,
    field: Seq<Interaction>,
    orbit: Seq<Interaction>,
    comets: Seq<Interaction>,
    shower: Seq<Interaction>,
) -> SelectedScenario {
    if any_pressed(shower) {
        SelectedScenario::Shower
    } else if any_pressed(comets) {
        SelectedScenario::Comets
    } else if any_pressed(orbit) {
        SelectedScenario::Orbit
    } else if any_pressed(field) {
        SelectedScenario::Field
    } else {
        current
    }
}

/// A scenario button records its scenario and starts play; Back returns to
/// the main menu, and wins when pressed in the same frame.
pub fn scenario_select_button_system(
    field: &Vec<Interaction>,
    orbit: &Vec<Interaction>,
    comets: &Vec<Interaction>,
    shower: &Vec<Interaction>,
    back: &Vec<Interaction>,
    selected: &mut SelectedScenario,
) -> (next_state: Option<GameState>)
    ensures
        *final(selected) == chosen_scenario(*old(selected), field@, orbit@, comets@, shower@),
        next_state == (if any_pressed(back@) {
            Some(GameState::MainMenu)
        } else if any_pressed(field@) || any_pressed(orbit@) || any_pressed(comets@) || any_pressed(
            shower@,
        ) {
            Some(GameState::Playing)
        } else {
            None
        }),
{
    let mut next_state: Option<GameState> = None;
    if button_pressed(field) {
        *selected = SelectedScenario::Field;
        next_state = Some(GameState::Playing);
    }
    if button_pressed(orbit) {
        *selected = SelectedScenario::Orbit;
        next_state = Some(GameState::Playing);
    }
    if button_pressed(comets) {
        *selected = SelectedScenario::Comets;
        next_state = Some(GameState::Playing);
    }
    if button_pressed(shower) {
        *selected = SelectedScenario::Shower;
        next_state = Some(GameState::Playing);
    }
    if button_pressed(back) {
        next_state = Some(GameState::MainMenu);
    }
    next_state
}

/// Each scenario button picks its own map: a pressed Shower button picks
/// Shower; otherwise a pressed Comets button picks Comets; otherwise Orbit,
/// otherwise Field; with no scenario button pressed the choice stays.
pub proof fn lemma_each_button_picks_its_scenario(
    current: SelectedScenario,
    field: Seq<Interaction>,
    orbit: Seq<Interaction>,
    comets: Seq<Interaction>,
    shower: Seq<Interaction>,
)
    ensures
        ({
            let chosen = chosen_scenario(current, field, orbit, comets, shower);
            let p = Interaction::Pressed;
            &&& shower.contains(p) ==> chosen == SelectedScenario::Shower
            &&& !shower.contains(p) && comets.contains(p) ==> chosen == SelectedScenario::Comets
            &&& !shower.contains(p) && !comets.contains(p) && orbit.contains(p) ==> chosen == SelectedScenario::Orbit
            &&& !shower.contains(p) && !comets.contains(p) && !orbit.contains(p) && field.contains(p) ==> chosen
                == SelectedScenario::Field
            &&& !shower.contains(p) && !comets.contains(p) && !orbit.contains(p) && !field.contains(p) ==> chosen
                == current
        }),
{
}

/// Whether the scenario picker is built this frame: only when it is not
/// already on screen and the game font, the Unicode fallback font, and the
/// emoji font have all loaded.
pub fn setup_scenario_select_when_fonts_ready(
    menu_exists: bool,
    game_font_loaded: bool,
    unicode_font_loaded: bool,
    emoji_font_loaded: bool,
) -> (build: bool)
    ensures
        build == (!menu_exists && game_font_loaded && unicode_font_loaded && emoji_font_loaded),
{
    if menu_exists {
        return false;
    }
    game_font_loaded && unicode_font_loaded && emoji_font_loaded
}

/// Despawns the scenario picker: the entities to remove.
pub fn cleanup_scenario_select(entities: &Vec<WorldEntity>) -> (despawn: Vec<u64>)
    ensures
        despawn@ == ids_of_kinds(entities@, seq![EntityKind::ScenarioSelectRoot]),
{
    despawn_roots(entities, EntityKind::ScenarioSelectRoot)
}

} // verus!
