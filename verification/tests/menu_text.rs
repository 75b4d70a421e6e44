use accretion::menu::campaign_select::{
    campaign_select_button_system, campaign_select_next_state, campaign_slot_card,
    campaign_slot_choice, CampaignNameEditor, CampaignSlotInfo,
};
use accretion::menu::load_game::load_slot_button_text;
use accretion::menu::ore_shop::{magnet_upgrade_card, ore_shop_labels, OreShopState};
use accretion::menu::types::{GameState, Interaction};
use accretion::mining::OreAffinityLevel;

fn chars(s: &str) -> Vec<char> {
    s.chars().collect()
}

fn string(v: &[char]) -> String {
    v.iter().collect()
}

#[test]
fn last_pressed_slot_is_loaded() {
    let p = vec![Interaction::Pressed];
    let h = vec![Interaction::Hovered];
    let none: Vec<Interaction> = vec![];
    assert_eq!(campaign_slot_choice(&none, &none, &none), None);
    assert_eq!(campaign_slot_choice(&p, &h, &none), Some(1));
    assert_eq!(campaign_slot_choice(&p, &p, &none), Some(2));
    assert_eq!(campaign_slot_choice(&p, &none, &p), Some(3));
}

#[test]
fn save_and_start_use_the_trimmed_name() {
    let p = vec![Interaction::Pressed];
    let none: Vec<Interaction> = vec![];
    let editor = CampaignNameEditor { selected_slot: 2, buffer: chars("  Ace run \t") };
    let r = campaign_select_button_system(&editor, Some(4), &p, &p);
    assert_eq!(r.slot, 2);
    assert_eq!(r.mission, 4);
    assert_eq!(string(&r.save_name.unwrap()), "Ace run");
    assert_eq!(string(&r.start_name.unwrap()), "Ace run");

    // Saving the name and typing nothing else starts under the same name.
    let saved = CampaignNameEditor { selected_slot: 2, buffer: chars("Ace run") };
    let r = campaign_select_button_system(&saved, None, &none, &p);
    assert_eq!(r.mission, 1);
    assert!(r.save_name.is_none());
    assert_eq!(string(&r.start_name.unwrap()), "Ace run");

    let blank = CampaignNameEditor { selected_slot: 3, buffer: chars("   ") };
    let r = campaign_select_button_system(&blank, None, &p, &none);
    assert_eq!(string(&r.save_name.unwrap()), "Campaign Slot 3");
    assert!(r.start_name.is_none());
}

#[test]
fn back_wins_over_a_started_run() {
    let p = vec![Interaction::Pressed];
    let none: Vec<Interaction> = vec![];
    assert_eq!(campaign_select_next_state(true, &p), Some(GameState::MainMenu));
    assert_eq!(campaign_select_next_state(true, &none), Some(GameState::Playing));
    assert_eq!(campaign_select_next_state(false, &none), None);
}

#[test]
fn slot_card_text() {
    let (title, line) = campaign_slot_card(CampaignSlotInfo {
        slot: 1,
        name: Some(chars("Ace")),
        status: chars("ok"),
        loadable: true,
        exists: true,
        mission_index: Some(2),
        saved_at_unix: Some(1700000000),
    });
    assert_eq!(string(&title), "SLOT 1 \u{2022} Ace");
    assert_eq!(string(&line), "ok \u{2022} resume \u{2022} mission 2 \u{2022} saved 1700000000");

    let (title, line) = campaign_slot_card(CampaignSlotInfo {
        slot: 3,
        name: None,
        status: chars("missing"),
        loadable: false,
        exists: false,
        mission_index: None,
        saved_at_unix: None,
    });
    assert_eq!(string(&title), "SLOT 3 \u{2022} Campaign Slot 3");
    assert_eq!(string(&line), "missing \u{2022} empty \u{2022} new run \u{2022} unsaved");

    let (_, line) = campaign_slot_card(CampaignSlotInfo {
        slot: 2,
        name: None,
        status: chars("corrupt"),
        loadable: false,
        exists: true,
        mission_index: None,
        saved_at_unix: None,
    });
    assert_eq!(string(&line), "corrupt \u{2022} not loadable \u{2022} new run \u{2022} unsaved");
}

#[test]
fn load_slot_text() {
    let (label, details) =
        load_slot_button_text(2, true, true, "ok", Some(chars("Comets")), Some(42));
    assert_eq!(string(&label), "\u{2726} LOAD SLOT 2");
    assert_eq!(string(&details), "Comets  \u{2022}  saved: unix 42");
    let (_, details) = load_slot_button_text(2, true, true, "ok", Some(chars("Orbit")), None);
    assert_eq!(string(&details), "Orbit  \u{2022}  saved: unknown");
    let (label, details) = load_slot_button_text(1, false, true, "version mismatch", None, None);
    assert_eq!(string(&label), "\u{2726} SLOT 1 (version mismatch)");
    assert_eq!(string(&details), "unreadable save file");
    let (label, details) = load_slot_button_text(3, false, false, "", None, None);
    assert_eq!(string(&label), "\u{2726} SLOT 3 (EMPTY)");
    assert_eq!(string(&details), "no save data");
}

#[test]
fn shop_labels_show_stock_and_magnet_price() {
    let shop = OreShopState {
        ore: 12,
        missile_ammo: 4,
        missile_ammo_max: 5,
        magnet_level: OreAffinityLevel { level: 0 },
    };
    let l = ore_shop_labels(&shop, false);
    assert_eq!(string(&l.ore_text), "\u{1F48E} available: 12");
    assert!(!l.can_heal);
    assert!(ore_shop_labels(&shop, true).can_heal);
    assert!(l.can_missile);
    assert_eq!(
        string(&l.missile_label),
        "\u{1F680} MISSILE \u{1F680}  (4 / 5)  -  1 \u{1F48E} -> +1 \u{1F680}"
    );
    assert!(l.magnet.can_upgrade);
    assert_eq!(string(&l.magnet.button_label), "UPGRADE (10 \u{1F48E})");
    assert_eq!(string(&l.magnet.cost_status), "Cost: 10 \u{1F48E}");
    assert_eq!(string(&l.magnet.level_text), "Level 1 / 10");

    let full = OreShopState { ore: 0, missile_ammo: 5, ..shop };
    assert!(!ore_shop_labels(&full, true).can_missile);
    assert!(!ore_shop_labels(&full, true).can_heal);
}

#[test]
fn magnet_card_short_of_ore_and_at_the_top() {
    let card = magnet_upgrade_card(&OreAffinityLevel { level: 3 }, 20);
    assert!(!card.can_upgrade);
    assert_eq!(string(&card.button_label), "UPGRADE (25 \u{1F48E})");
    assert_eq!(string(&card.cost_status), "Need 25 \u{1F48E}");
    assert_eq!(string(&card.level_text), "Level 4 / 10");

    let top = magnet_upgrade_card(&OreAffinityLevel { level: 9 }, 1000);
    assert!(!top.can_upgrade);
    assert_eq!(string(&top.button_label), "\u{2014} MAX LEVEL \u{2014}");
    assert_eq!(string(&top.cost_status), "MAX LEVEL REACHED");
    assert_eq!(string(&top.level_text), "Level 10 / 10");
}
