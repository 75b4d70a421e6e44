//! Game states and the player's menu selections.

use vstd::prelude::*;

verus! {

/// Top-level application state machine.
#[derive(Clone, Copy, Debug, PartialEq, Eq, Structural)]
pub enum GameState {
    /// Main-menu splash screen; shown on startup.
    MainMenu,
    /// Load game slot picker shown from the main menu.
    LoadGameMenu,
    /// Scenario picker shown after choosing to start a game.
    ScenarioSelect,
    /// Active simulation.
    Playing,
    /// Simulation frozen; pause overlay visible.
    Paused,
    /// Ore shop open; simulation frozen.
    OreShop,
    /// All lives lost; game-over overlay visible.
    GameOver,
}

/// Which state to return to when the ore shop is closed.
#[derive(Clone, Copy, Debug, PartialEq, Eq, Structural)]
pub enum ShopReturnState {
    Playing,
    Paused,
}

/// Which scenario map is played.
#[derive(Clone, Copy, Debug, PartialEq, Eq, Structural)]
pub enum SelectedScenario {
    /// Asteroids distributed by noise clusters.
    Field,
    /// One large planetoid with rings of smaller asteroids.
    Orbit,
    /// Large, fast asteroids on crossing trajectories.
    Comets,
    /// Unit triangles packed into a dense field.
    Shower,
}

/// Whether a session is a campaign run or free practice.
#[derive(Clone, Copy, Debug, PartialEq, Eq, Structural)]
pub enum SelectedGameMode {
    Practice,
    Campaign,
}

/// How a button was touched this frame.
#[derive(Clone, Copy, Debug, PartialEq, Eq, Structural)]
pub enum Interaction {
    Pressed,
    Hovered,
    Idle,
}

/// Whether any of the buttons that changed this frame was pressed.
pub open spec fn any_pressed(changed: Seq<Interaction>) -> bool {
    changed.contains(Interaction::Pressed)
}

/// A button counts as pressed exactly when one of its changes this frame is
/// a press.
pub proof fn lemma_any_pressed_means_a_press(changed: Seq<Interaction>)
    ensures
        any_pressed(changed) <==> exists|i: int| 0 <= i < changed.len() && changed[i] == Interaction::Pressed,
        changed.len() == 0 ==> !any_pressed(changed),
{
}

/// Whether any of the buttons that changed this frame was pressed.
pub fn button_pressed(changed: &Vec<Interaction>) -> (pressed: bool)
    ensures
        pressed == any_pressed(changed@),
{
    let mut i: usize = 0;
    while i < changed.len()
        invariant
            i <= changed@.len(),
            forall|j: int| 0 <= j < i ==> changed@[j] != Interaction::Pressed,
        decreases changed@.len() - i,
    {
        if changed[i] == Interaction::Pressed {
            return true;
        }
        i = i + 1;
    }
    false
}

impl Default for GameState {
    /// The application starts at the main menu.
    fn default() -> (s: Self)
        ensures
            s == GameState::MainMenu,
    {
        GameState::MainMenu
    }
}

impl Default for ShopReturnState {
    /// The shop returns to play unless it was opened from the pause menu.
    fn default() -> (s: Self)
        ensures
            s == ShopReturnState::Playing,
    {
        ShopReturnState::Playing
    }
}

impl Default for SelectedScenario {
    /// The classic asteroid field is selected until the player picks another.
    fn default() -> (s: Self)
        ensures
            s == SelectedScenario::Field,
    {
        SelectedScenario::Field
    }
}

} // verus!
