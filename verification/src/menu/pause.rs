//! Pausing: the physics switch, the pause and shop keys, and the pause menu.

use vstd::prelude::*;
use crate::menu::cleanup::{despawn_roots, ids_of_kinds, EntityKind, WorldEntity};
use crate::menu::types::{any_pressed, button_pressed, GameState, Interaction, ShopReturnState};

verus! {

/// Switches every physics pipeline off so the world freezes.
pub fn pause_physics(pipeline_active: &mut Vec<bool>)
    ensures
        final(pipeline_active)@.len() == old(pipeline_active)@.len(),
        forall|i: int| 0 <= i < final(pipeline_active)@.len() ==> !#[trigger] final(pipeline_active)@[i],
{
    set_all(pipeline_active, false);
}

/// Switches every physics pipeline back on.
pub fn resume_physics(pipeline_active: &mut Vec<bool>)
    ensures
        final(pipeline_active)@.len() == old(pipeline_active)@.len(),
        forall|i: int| 0 <= i < final(pipeline_active)@.len() ==> #[trigger] final(pipeline_active)@[i],
{
    set_all(pipeline_active, true);
}

fn set_all(flags: &mut Vec<bool>, value: bool)
    ensures
        final(flags)@.len() == old(flags)@.len(),
        forall|i: int| 0 <= i < final(flags)@.len() ==> #[trigger] final(flags)@[i] == value,
{
    let mut i: usize = 0;
    while i < flags.len()
        invariant
            i <= flags@.len(),
            flags@.len() == old(flags)@.len(),
            forall|j: int| 0 <= j < i ==> #[trigger] flags@[j] == value,
        decreases flags@.len() - i,
    {
        flags.set(i, value);
        i = i + 1;
    }
}

/// Escape during play pauses the game.
pub fn toggle_pause_system(escape_pressed: bool) -> (next_state: Option<GameState>)
    ensures
        next_state == (if escape_pressed { Some(GameState::Paused) } else { None }),
{
    if escape_pressed { Some(GameState::Paused) } else { None }
}

/// Escape while paused resumes play.
pub fn pause_resume_input_system(escape_pressed: bool) -> (next_state: Option<GameState>)
    ensures
        next_state == (if escape_pressed { Some(GameState::Playing) } else { None }),
{
    if escape_pressed { Some(GameState::Playing) } else { None }
}

/// Where the shop returns to when it was opened in `current`.
pub open spec fn shop_return_for(current: GameState) -> ShopReturnState {
    if current == GameState::Paused { ShopReturnState::Paused } else { ShopReturnState::Playing }
}

/// Tab opens the ore shop and remembers whether it was opened from the pause
/// menu or from play.
pub fn toggle_ore_shop_system(
    tab_pressed: bool,
    current: GameState,
    return_state: &mut ShopReturnState,
) -> (next_state: Option<GameState>)
    ensures
        tab_pressed ==> *final(return_state) == shop_return_for(current) && next_state == Some(
            GameState::OreShop,
        ),
        !tab_pressed ==> *final(return_state) == *old(return_state) && next_state is None,
{
    if tab_pressed {
        *return_state = if current == GameState::Paused {
            ShopReturnState::Paused
        } else {
            ShopReturnState::Playing
        };
        Some(GameState::OreShop)
    } else {
        None
    }
}

/// The state the shop closes into.
pub open spec fn shop_close_state(r: ShopReturnState) -> GameState {
    match r {
        ShopReturnState::Playing => GameState::Playing,
        ShopReturnState::Paused => GameState::Paused,
    }
}

/// The state the shop closes into.
pub fn shop_close_target(return_state: ShopReturnState) -> (target: GameState)
    ensures
        target == shop_close_state(return_state),
{
    match return_state {
        ShopReturnState::Playing => GameState::Playing,
        ShopReturnState::Paused => GameState::Paused,
    }
}

/// The shop remembers the pause menu when opened from it and play when
/// opened from anywhere else, and closes back into the state it remembered.
pub proof fn lemma_shop_return_states(current: GameState)
    ensures
        current == GameState::Paused ==> shop_return_for(current) == ShopReturnState::Paused,
        current != GameState::Paused ==> shop_return_for(current) == ShopReturnState::Playing,
        shop_close_state(ShopReturnState::Paused) == GameState::Paused,
        shop_close_state(ShopReturnState::Playing) == GameState::Playing,
{
}

/// Opening the shop from play or from the pause menu and closing it again
/// comes back to where it was opened.
pub proof fn lemma_shop_round_trip(current: GameState)
    requires
        current == GameState::Playing || current == GameState::Paused,
    ensures
        shop_close_state(shop_return_for(current)) == current,
{
}

/// What the pause menu does this frame.
#[derive(Clone, Debug)]
pub struct PauseMenuOutcome {
    pub next_state: Option<GameState>,
    /// Save requests, one per pressed save button, by slot.
    pub save_requests: Vec<u8>,
}

/// The number of pressed buttons among those that changed.
pub open spec fn press_count(changed: Seq<Interaction>) -> nat
    decreases changed.len(),
{
    if changed.len() == 0 {
        0
    } else {
        press_count(changed.drop_last()) + if changed.last() == Interaction::Pressed { 1nat } else { 0nat }
    }
}

/// `slot` repeated once per pressed button.
pub open spec fn slot_requests(changed: Seq<Interaction>, slot: u8) -> Seq<u8> {
    Seq::new(press_count(changed), |i: int| slot)
}

pub(crate) fn push_requests(out: &mut Vec<u8>, changed: &Vec<Interaction>, slot: u8)
    ensures
        final(out)@ == old(out)@ + slot_requests(changed@, slot),
{
    let mut i: usize = 0;
    while i < changed.len()
        invariant
            i <= changed@.len(),
            out@ == old(out)@ + slot_requests(changed@.subrange(0, i as int), slot),
        decreases changed@.len() - i,
    {
        proof {
            assert(changed@.subrange(0, i + 1).drop_last() =~= changed@.subrange(0, i as int));
        }
        if changed[i] == Interaction::Pressed {
            out.push(slot);
        }
        proof {
            assert(out@ =~= old(out)@ + slot_requests(changed@.subrange(0, i + 1), slot));
        }
        i = i + 1;
    }
    proof {
        assert(changed@.subrange(0, changed@.len() as int) =~= changed@);
    }
}

/// Whether the debug overlay flips `n` times from `open`.
pub open spec fn flipped(open: bool, n: nat) -> bool
    decreases n,
{
    if n == 0 { open } else { !flipped(open, (n - 1) as nat) }
}

/// Resume returns to play and Main Menu leaves the game (the later request
/// wins); each press of Debug flips the debug overlay and shows or hides
/// every debug panel to match; each press of a save button asks for that slot
/// to be saved, slot 1 first.
pub fn pause_menu_button_system(
    resume: &Vec<Interaction>,
    debug: &Vec<Interaction>,
    save_slot_1: &Vec<Interaction>,
    save_slot_2: &Vec<Interaction>,
    save_slot_3: &Vec<Interaction>,
    main_menu: &Vec<Interaction>,
    debug_menu_open: &mut bool,
    debug_panels_visible: &mut Vec<bool>,
) -> (outcome: PauseMenuOutcome)
    ensures
        outcome.next_state == (if any_pressed(main_menu@) {
            Some(GameState::MainMenu)
        } else if any_pressed(resume@) {
            Some(GameState::Playing)
        } else {
            None
        }),
        *final(debug_menu_open) == flipped(*old(debug_menu_open), press_count(debug@)),
        final(debug_panels_visible)@.len() == old(debug_panels_visible)@.len(),
        press_count(debug@) > 0 ==> forall|i: int|
            0 <= i < final(debug_panels_visible)@.len() ==> #[trigger] final(debug_panels_visible)@[i]
                == *final(debug_menu_open),
        press_count(debug@) == 0 ==> final(debug_panels_visible)@ == old(debug_panels_visible)@,
        outcome.save_requests@ == slot_requests(save_slot_1@, 1) + slot_requests(save_slot_2@, 2)
            + slot_requests(save_slot_3@, 3),
{
    let mut next_state: Option<GameState> = None;
    if button_pressed(resume) {
        next_state = Some(GameState::Playing);
    }
    let mut i: usize = 0;
    while i < debug.len()
        invariant
            i <= debug@.len(),
            *debug_menu_open == flipped(*old(debug_menu_open), press_count(debug@.subrange(0, i as int))),
            debug_panels_visible@.len() == old(debug_panels_visible)@.len(),
            press_count(debug@.subrange(0, i as int)) > 0 ==> forall|j: int|
                0 <= j < debug_panels_visible@.len() ==> #[trigger] debug_panels_visible@[j] == *debug_menu_open,
            press_count(debug@.subrange(0, i as int)) == 0 ==> debug_panels_visible@ == old(debug_panels_visible)@,
        decreases debug@.len() - i,
    {
        proof {
            assert(debug@.subrange(0, i + 1).drop_last() =~= debug@.subrange(0, i as int));
        }
        if debug[i] == Interaction::Pressed {
            *debug_menu_open = !*debug_menu_open;
            set_all(debug_panels_visible, *debug_menu_open);
        }
        i = i + 1;
    }
    proof {
        assert(debug@.subrange(0, debug@.len() as int) =~= debug@);
    }
    let mut save_requests: Vec<u8> = Vec::new();
    push_requests(&mut save_requests, save_slot_1, 1);
    push_requests(&mut save_requests, save_slot_2, 2);
    push_requests(&mut save_requests, save_slot_3, 3);
    if button_pressed(main_menu) {
        next_state = Some(GameState::MainMenu);
    }
    PauseMenuOutcome { next_state, save_requests }
}

/// Despawns the pause menu: the entities to remove.
pub fn cleanup_pause_menu(entities: &Vec<WorldEntity>) -> (despawn: Vec<u64>)
    ensures
        despawn@ == ids_of_kinds(entities@, seq![EntityKind::PauseMenuRoot]),
{
    despawn_roots(entities, EntityKind::PauseMenuRoot)
}

} // verus!
