//! Load-game slot picker buttons.

use vstd::prelude::*;
use crate::menu::cleanup::{despawn_roots, ids_of_kinds, EntityKind, WorldEntity};
use crate::menu::types::{any_pressed, button_pressed, GameState, Interaction};
use crate::menu::pause::slot_requests;
use crate::menu::common::{format_saved_at, saved_at_caption};
use crate::text::{decimal, push_decimal, push_str};

verus! {

/// The slots to try loading this frame, in order: one try per pressed slot
/// button, slot 1 first. Play starts with the first slot that loads.
pub fn load_slot_attempts(
    slot_1: &Vec<Interaction>,
    slot_2: &Vec<Interaction>,
    slot_3: &Vec<Interaction>,
) -> (attempts: Vec<u8>)
    ensures
        attempts@ == slot_requests(slot_1@, 1) + slot_requests(slot_2@, 2) + slot_requests(slot_3@, 3),
{
    let mut attempts: Vec<u8> = Vec::new();
    crate::menu::pause::push_requests(&mut attempts, slot_1, 1);
    crate::menu::pause::push_requests(&mut attempts, slot_2, 2);
    crate::menu::pause::push_requests(&mut attempts, slot_3, 3);
    attempts
}

/// The state after the load attempts: play when a slot was loaded (the
/// remaining buttons are then ignored), else the main menu when Back was
/// pressed.
pub fn load_game_next_state(slot_loaded: bool, back: &Vec<Interaction>) -> (next_state: Option<GameState>)
    ensures
        next_state == (if slot_loaded {
            Some(GameState::Playing)
        } else if any_pressed(back@) {
            Some(GameState::MainMenu)
        } else {
            None
        }),
{
    if slot_loaded {
        Some(GameState::Playing)
    } else if button_pressed(back) {
        Some(GameState::MainMenu)
    } else {
        None
    }
}

/// A load slot button's label: loadable, present but broken (with the save
/// file's status word), or empty.
pub open spec fn load_slot_caption(slot: u8, loadable: bool, exists: bool, status: Seq<char>) -> Seq<char> {
    if loadable {
        "\u{2726} LOAD SLOT "@ + decimal(slot as nat)
    } else if exists {
        "\u{2726} SLOT "@ + decimal(slot as nat) + " ("@ + status + ")"@
    } else {
        "\u{2726} SLOT "@ + decimal(slot as nat) + " (EMPTY)"@
    }
}

/// A load slot button's detail line: the saved scenario's label and save
/// time when the file names a scenario, else why there is nothing to load.
pub open spec fn load_slot_details(scenario_label: Option<Seq<char>>, exists: bool, saved_at_unix: Option<u64>) -> Seq<char> {
    match scenario_label {
        Some(label) => label + "  \u{2022}  "@ + saved_at_caption(
            match saved_at_unix {
                Some(t) => t,
                None => 0,
            },
        ),
        None => if exists {
            "unreadable save file"@
        } else {
            "no save data"@
        },
    }
}

/// The label and detail line of a load slot button.
pub fn load_slot_button_text(
    slot: u8,
    loadable: bool,
    exists: bool,
    status: &str,
    scenario_label: Option<Vec<char>>,
    saved_at_unix: Option<u64>,
) -> (text: (Vec<char>, Vec<char>))
    ensures
        text.0@ == load_slot_caption(slot, loadable, exists, status@),
        text.1@ == load_slot_details(
            match scenario_label {
                Some(l) => Some(l@),
                None => None,
            },
            exists,
            saved_at_unix,
        ),
{
    let mut label: Vec<char> = Vec::new();
    if loadable {
        push_str(&mut label, "\u{2726} LOAD SLOT ");
        push_decimal(&mut label, slot as u64);
    } else {
        push_str(&mut label, "\u{2726} SLOT ");
        push_decimal(&mut label, slot as u64);
        if exists {
            push_str(&mut label, " (");
            push_str(&mut label, status);
            push_str(&mut label, ")");
        } else {
            push_str(&mut label, " (EMPTY)");
        }
    }
    let details = match scenario_label {
        Some(l) => {
            let mut d = l;
            push_str(&mut d, "  \u{2022}  ");
            let ts: u64 = match saved_at_unix {
                Some(t) => t,
                None => 0,
            };
            let mut caption = format_saved_at(ts);
            d.append(&mut caption);
            d
        },
        None => {
            let mut d: Vec<char> = Vec::new();
            if exists {
                push_str(&mut d, "unreadable save file");
            } else {
                push_str(&mut d, "no save data");
            }
            d
        },
    };
    (label, details)
}

/// Despawns the load-game screen: the entities to remove.
pub fn cleanup_load_game_menu(entities: &Vec<WorldEntity>) -> (despawn: Vec<u64>)
    ensures
        despawn@ == ids_of_kinds(entities@, seq![EntityKind::LoadGameRoot]),
{
    despawn_roots(entities, EntityKind::LoadGameRoot)
}

} // verus!
