use accretion::menu::scenario_select::setup_scenario_select_when_fonts_ready;
use accretion::menu::campaign_select::{
    campaign_name_display_system, campaign_name_input_system, campaign_name_to_save,
    default_campaign_slot_name, set_editor_from_slot, CampaignNameEditor, NameKey,
};
use accretion::menu::common::format_saved_at;
use accretion::menu::cleanup::PlayerLives;
use accretion::menu::game_over::game_over_button_system;
use accretion::menu::load_game::{load_game_next_state, load_slot_attempts};
use accretion::menu::main_menu::menu_button_system;
use accretion::menu::ore_shop::{ore_shop_button_system, OreShopAction, OreShopInput, OreShopState};
use accretion::menu::pause::{
    pause_menu_button_system, pause_physics, pause_resume_input_system, resume_physics,
    shop_close_target, toggle_ore_shop_system, toggle_pause_system,
};
use accretion::menu::scenario_select::scenario_select_button_system;
use accretion::menu::types::{
    GameState, Interaction, SelectedScenario, ShopReturnState,
};
use accretion::mining::OreAffinityLevel;

fn text(v: &[char]) -> String {
    v.iter().collect()
}

fn chars(s: &str) -> Vec<char> {
    s.chars().collect()
}

fn editor(slot: u8, name: &str) -> CampaignNameEditor {
    CampaignNameEditor { selected_slot: slot, buffer: chars(name) }
}

#[test]
fn default_slot_names_are_numbered() {
    assert_eq!(text(&default_campaign_slot_name(1)), "Campaign Slot 1");
    assert_eq!(text(&default_campaign_slot_name(255)), "Campaign Slot 255");
    assert_eq!(text(&default_campaign_slot_name(0)), "Campaign Slot 0");
}

#[test]
fn editor_loads_saved_or_default_name() {
    let mut e = editor(1, "x");
    set_editor_from_slot(&mut e, 2, Some(chars("Nebula Run")));
    assert_eq!((e.selected_slot, text(&e.buffer)), (2, "Nebula Run".to_string()));
    set_editor_from_slot(&mut e, 3, None);
    assert_eq!((e.selected_slot, text(&e.buffer)), (3, "Campaign Slot 3".to_string()));
}

#[test]
fn typing_appends_in_key_order() {
    let mut e = editor(1, "AB");
    campaign_name_input_system(
        &mut e,
        &vec![NameKey::Letter(2), NameKey::Backspace, NameKey::Digit(1), NameKey::Space],
    );
    assert_eq!(text(&e.buffer), "A 1C");
    campaign_name_input_system(&mut e, &vec![NameKey::Minus, NameKey::Letter(25), NameKey::Digit(9)]);
    assert_eq!(text(&e.buffer), "A 1C-9Z");
    campaign_name_input_system(&mut e, &vec![]);
    assert_eq!(text(&e.buffer), "A 1C-9Z");
    let mut empty = editor(1, "");
    campaign_name_input_system(&mut empty, &vec![NameKey::Backspace]);
    assert_eq!(text(&empty.buffer), "");
}

#[test]
fn name_is_cut_to_28_bytes() {
    let mut e = editor(1, "ABCDEFGHIJKLMNOPQRSTUVWXYZ0");
    campaign_name_input_system(&mut e, &vec![NameKey::Digit(1), NameKey::Digit(2), NameKey::Digit(3)]);
    assert_eq!(text(&e.buffer), "ABCDEFGHIJKLMNOPQRSTUVWXYZ01");
    assert_eq!(e.buffer.len(), 28);
    // a two-byte character that ends exactly at the limit stays whole
    let mut wide = editor(1, "ABCDEFGHIJKLMNOPQRSTUVWXYZé");
    campaign_name_input_system(&mut wide, &vec![NameKey::Letter(0)]);
    assert_eq!(text(&wide.buffer), "ABCDEFGHIJKLMNOPQRSTUVWXYZé");
}

#[test]
fn name_labels_follow_changes() {
    let e = editor(2, "Comet Chaser");
    let (slot, name) = campaign_name_display_system(&e, true).unwrap();
    assert_eq!(text(&slot), "Selected Slot: 2");
    assert_eq!(text(&name), "Name: Comet Chaser");
    assert!(campaign_name_display_system(&e, false).is_none());
}

#[test]
fn saved_name_is_trimmed_or_defaulted() {
    assert_eq!(text(&campaign_name_to_save(&editor(2, "  Rock Hopper \t"))), "Rock Hopper");
    assert_eq!(text(&campaign_name_to_save(&editor(3, "   "))), "Campaign Slot 3");
    assert_eq!(text(&campaign_name_to_save(&editor(1, "\u{3000}A B\u{00A0}"))), "A B");
}

#[test]
fn saved_at_caption() {
    assert_eq!(text(&format_saved_at(0)), "saved: unknown");
    assert_eq!(text(&format_saved_at(1_700_000_000)), "saved: unix 1700000000");
}

#[test]
fn main_menu_buttons() {
    let p = vec![Interaction::Pressed];
    let h = vec![Interaction::Hovered];
    let none: Vec<Interaction> = vec![];
    let o = menu_button_system(&p, &none, &h);
    assert_eq!((o.next_state, o.exit), (Some(GameState::ScenarioSelect), false));
    let o = menu_button_system(&p, &p, &none);
    assert_eq!(o.next_state, Some(GameState::LoadGameMenu));
    let o = menu_button_system(&h, &none, &p);
    assert_eq!((o.next_state, o.exit), (None, true));
}

#[test]
fn game_over_play_again_wins_over_quit() {
    let p = vec![Interaction::Pressed];
    let none: Vec<Interaction> = vec![];
    let mut lives = PlayerLives { remaining: 0, respawn_timer_ms: Some(1500) };
    let o = game_over_button_system(true, &none, &p, &mut lives);
    assert!(o.play_again && !o.exit);
    assert_eq!(o.next_state, Some(GameState::Playing));
    assert_eq!(lives, PlayerLives { remaining: 3, respawn_timer_ms: None });
    let mut lives = PlayerLives { remaining: 0, respawn_timer_ms: Some(1500) };
    let o = game_over_button_system(false, &none, &p, &mut lives);
    assert!(!o.play_again && o.exit);
    assert_eq!(o.next_state, None);
    assert_eq!(lives, PlayerLives { remaining: 0, respawn_timer_ms: Some(1500) });
}

#[test]
fn scenario_buttons_pick_and_start() {
    let p = vec![Interaction::Idle, Interaction::Pressed];
    let none: Vec<Interaction> = vec![];
    let mut selected = SelectedScenario::default();
    let next = scenario_select_button_system(&none, &p, &none, &none, &none, &mut selected);
    assert_eq!((next, selected), (Some(GameState::Playing), SelectedScenario::Orbit));
    let next = scenario_select_button_system(&none, &none, &p, &p, &none, &mut selected);
    assert_eq!((next, selected), (Some(GameState::Playing), SelectedScenario::Shower));
    let next = scenario_select_button_system(&p, &none, &none, &none, &p, &mut selected);
    assert_eq!((next, selected), (Some(GameState::MainMenu), SelectedScenario::Field));
    let next = scenario_select_button_system(&none, &none, &none, &none, &none, &mut selected);
    assert_eq!((next, selected), (None, SelectedScenario::Field));
}

#[test]
fn load_menu_tries_pressed_slots_in_order() {
    let p = vec![Interaction::Pressed];
    let none: Vec<Interaction> = vec![];
    assert_eq!(load_slot_attempts(&none, &p, &p), vec![2, 3]);
    assert_eq!(load_game_next_state(true, &p), Some(GameState::Playing));
    assert_eq!(load_game_next_state(false, &p), Some(GameState::MainMenu));
    assert_eq!(load_game_next_state(false, &none), None);
}

#[test]
fn pause_keys_and_physics_switch() {
    assert_eq!(toggle_pause_system(true), Some(GameState::Paused));
    assert_eq!(toggle_pause_system(false), None);
    assert_eq!(pause_resume_input_system(true), Some(GameState::Playing));
    let mut flags = vec![true, false, true];
    pause_physics(&mut flags);
    assert_eq!(flags, vec![false, false, false]);
    resume_physics(&mut flags);
    assert_eq!(flags, vec![true, true, true]);
}

#[test]
fn shop_returns_to_where_it_was_opened() {
    let mut ret = ShopReturnState::default();
    assert_eq!(toggle_ore_shop_system(true, GameState::Paused, &mut ret), Some(GameState::OreShop));
    assert_eq!(shop_close_target(ret), GameState::Paused);
    assert_eq!(toggle_ore_shop_system(true, GameState::Playing, &mut ret), Some(GameState::OreShop));
    assert_eq!(shop_close_target(ret), GameState::Playing);
    assert_eq!(toggle_ore_shop_system(false, GameState::Paused, &mut ret), None);
    assert_eq!(ret, ShopReturnState::Playing);
}

#[test]
fn pause_menu_buttons() {
    let p = vec![Interaction::Pressed];
    let pp = vec![Interaction::Pressed, Interaction::Hovered, Interaction::Pressed];
    let none: Vec<Interaction> = vec![];
    let mut debug_open = false;
    let mut panels = vec![true, false];
    let o = pause_menu_button_system(&p, &pp, &p, &none, &pp, &none, &mut debug_open, &mut panels);
    assert_eq!(o.next_state, Some(GameState::Playing));
    assert!(!debug_open);
    assert_eq!(panels, vec![false, false]);
    assert_eq!(o.save_requests, vec![1, 3, 3]);
    let o = pause_menu_button_system(&p, &p, &none, &none, &none, &p, &mut debug_open, &mut panels);
    assert_eq!(o.next_state, Some(GameState::MainMenu));
    assert!(debug_open);
    assert_eq!(panels, vec![true, true]);
    assert!(o.save_requests.is_empty());
    // Without a Debug press the panels are left as they are.
    let mut panels = vec![true, false];
    let _ = pause_menu_button_system(&p, &none, &none, &none, &none, &none, &mut debug_open, &mut panels);
    assert_eq!(panels, vec![true, false]);
}

fn shop_input() -> OreShopInput {
    OreShopInput {
        close_key: false,
        close: vec![],
        heal: vec![],
        missile: vec![],
        magnet_upgrade: vec![],
        player_hurt: true,
    }
}

#[test]
fn shop_purchases() {
    let mut shop = OreShopState {
        ore: 12,
        missile_ammo: 4,
        missile_ammo_max: 5,
        magnet_level: OreAffinityLevel { level: 0 },
    };
    let mut input = shop_input();
    input.heal = vec![Interaction::Pressed];
    input.missile = vec![Interaction::Pressed];
    assert_eq!(ore_shop_button_system(&input, ShopReturnState::Playing, &mut shop), OreShopAction::Heal);
    assert_eq!((shop.ore, shop.missile_ammo), (11, 4));
    input.player_hurt = false;
    assert_eq!(ore_shop_button_system(&input, ShopReturnState::Playing, &mut shop), OreShopAction::Redraw);
    assert_eq!((shop.ore, shop.missile_ammo), (10, 5));
    let mut magnet = shop_input();
    magnet.magnet_upgrade = vec![Interaction::Pressed];
    assert_eq!(ore_shop_button_system(&magnet, ShopReturnState::Playing, &mut shop), OreShopAction::Redraw);
    assert_eq!((shop.ore, shop.magnet_level.level), (0, 1));
    assert_eq!(ore_shop_button_system(&magnet, ShopReturnState::Playing, &mut shop), OreShopAction::Redraw);
    assert_eq!((shop.ore, shop.magnet_level.level), (0, 1));
    assert_eq!(ore_shop_button_system(&shop_input(), ShopReturnState::Playing, &mut shop), OreShopAction::Nothing);
    let mut close = shop_input();
    close.close_key = true;
    close.heal = vec![Interaction::Pressed];
    assert_eq!(
        ore_shop_button_system(&close, ShopReturnState::Paused, &mut shop),
        OreShopAction::Close(GameState::Paused)
    );
}

#[test]
fn scenario_picker_waits_for_fonts() {
    assert!(setup_scenario_select_when_fonts_ready(false, true, true, true));
    assert!(!setup_scenario_select_when_fonts_ready(true, true, true, true));
    assert!(!setup_scenario_select_when_fonts_ready(false, true, false, true));
    assert!(!setup_scenario_select_when_fonts_ready(false, true, true, false));
    assert!(!setup_scenario_select_when_fonts_ready(false, false, true, true));
}
