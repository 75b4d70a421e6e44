//! Ore shop purchases: healing, missile restock, the magnet upgrade, and
//! closing the shop.

use vstd::prelude::*;
use crate::menu::cleanup::{despawn_roots, ids_of_kinds, EntityKind, WorldEntity};
use crate::menu::types::{any_pressed, button_pressed, GameState, Interaction, ShopReturnState};
use crate::menu::pause::{shop_close_state, shop_close_target};
use crate::mining::{affinity_affordable, affinity_cost, OreAffinityLevel, ORE_AFFINITY_MAX_LEVEL};
use crate::text::{decimal, push_decimal, push_str};

verus! {

/// What the shop sells from and to: the ore to spend, the missile stock, and
/// the magnet level.
#[derive(Clone, Copy, Debug)]
pub struct OreShopState {
    pub ore: u32,
    pub missile_ammo: u32,
    pub missile_ammo_max: u32,
    pub magnet_level: OreAffinityLevel,
}

/// This frame's shop input.
#[derive(Clone, Debug)]
pub struct OreShopInput {
    /// Escape or Tab was pressed.
    pub close_key: bool,
    pub close: Vec<Interaction>,
    pub heal: Vec<Interaction>,
    pub missile: Vec<Interaction>,
    pub magnet_upgrade: Vec<Interaction>,
    /// Whether the player exists and is below full health.
    pub player_hurt: bool,
}

/// What the shop does this frame, besides what it spends.
#[derive(Clone, Copy, Debug, PartialEq, Eq, Structural)]
pub enum OreShopAction {
    /// Nothing happened.
    Nothing,
    /// The shop closes into this state.
    Close(GameState),
    /// One ore was spent on healing: raise health by the heal amount, up to
    /// the maximum, and redraw the shop.
    Heal,
    /// Labels changed: redraw the shop.
    Redraw,
}

/// The shop after this frame's purchases, and the action for the caller.
/// Closing wins over everything; a heal or a restock ends the frame's
/// purchases; a magnet upgrade is attempted whenever its button is pressed
/// (and only redraws when it cannot be afforded).
pub open spec fn shop_step(s: OreShopState, input: OreShopInput, ret: ShopReturnState) -> (OreShopState, OreShopAction) {
    if input.close_key || any_pressed(input.close@) {
        (s, OreShopAction::Close(shop_close_state(ret)))
    } else if any_pressed(input.heal@) && s.ore > 0 && input.player_hurt {
        (OreShopState { ore: (s.ore - 1) as u32, ..s }, OreShopAction::Heal)
    } else if any_pressed(input.missile@) && s.ore > 0 && s.missile_ammo < s.missile_ammo_max {
        (
            OreShopState { ore: (s.ore - 1) as u32, missile_ammo: (s.missile_ammo + 1) as u32, ..s },
            OreShopAction::Redraw,
        )
    } else if any_pressed(input.magnet_upgrade@) {
        if affinity_affordable(s.magnet_level.level, s.ore) {
            (
                OreShopState {
                    ore: (s.ore - affinity_cost(s.magnet_level.level)->0) as u32,
                    magnet_level: OreAffinityLevel { level: (s.magnet_level.level + 1) as u32 },
                    ..s
                },
                OreShopAction::Redraw,
            )
        } else {
            (s, OreShopAction::Redraw)
        }
    } else {
        (s, OreShopAction::Nothing)
    }
}

/// Handles the shop buttons for one frame.
pub fn ore_shop_button_system(
    input: &OreShopInput,
    return_state: ShopReturnState,
    shop: &mut OreShopState,
) -> (action: OreShopAction)
    ensures
        (*final(shop), action) == shop_step(*old(shop), *input, return_state),
{
    if input.close_key || button_pressed(&input.close) {
        return OreShopAction::Close(shop_close_target(return_state));
    }
    if button_pressed(&input.heal) && shop.ore > 0 && input.player_hurt {
        shop.ore = shop.ore - 1;
        return OreShopAction::Heal;
    }
    if button_pressed(&input.missile) && shop.ore > 0 && shop.missile_ammo < shop.missile_ammo_max {
        shop.missile_ammo = shop.missile_ammo + 1;
        shop.ore = shop.ore - 1;
        return OreShopAction::Redraw;
    }
    if button_pressed(&input.magnet_upgrade) {
        let mut ore = shop.ore;
        let mut level = shop.magnet_level;
        let _spent = level.try_upgrade(&mut ore);
        shop.ore = ore;
        shop.magnet_level = level;
        return OreShopAction::Redraw;
    }
    OreShopAction::Nothing
}

/// Escape, Tab, or a pressed Close button closes the shop, whatever else was
/// pressed: back to play when it was opened from play, back to the pause menu
/// when it was opened from there; nothing is bought on that frame.
pub proof fn lemma_close_wins(s: OreShopState, input: OreShopInput, ret: ShopReturnState)
    requires
        input.close_key || input.close@.contains(Interaction::Pressed),
    ensures
        shop_step(s, input, ret).0 == s,
        ret == ShopReturnState::Playing ==> shop_step(s, input, ret).1 == OreShopAction::Close(GameState::Playing),
        ret == ShopReturnState::Paused ==> shop_step(s, input, ret).1 == OreShopAction::Close(GameState::Paused),
{
}

/// Without a close, a press of Heal with ore in hand while the player is
/// hurt spends exactly one ore on a heal; otherwise a press of Missile with
/// ore in hand and room in the launcher trades one ore for one missile; a
/// frame with no button pressed changes nothing.
pub proof fn lemma_purchase_rules(s: OreShopState, input: OreShopInput, ret: ShopReturnState)
    requires
        !input.close_key,
        !input.close@.contains(Interaction::Pressed),
    ensures
        input.heal@.contains(Interaction::Pressed) && s.ore > 0 && input.player_hurt ==> shop_step(s, input, ret)
            == (OreShopState { ore: (s.ore - 1) as u32, ..s }, OreShopAction::Heal),
        !(input.heal@.contains(Interaction::Pressed) && s.ore > 0 && input.player_hurt)
            && input.missile@.contains(Interaction::Pressed) && s.ore > 0 && s.missile_ammo
            < s.missile_ammo_max ==> shop_step(s, input, ret) == (
            OreShopState { ore: (s.ore - 1) as u32, missile_ammo: (s.missile_ammo + 1) as u32, ..s },
            OreShopAction::Redraw,
        ),
        !input.heal@.contains(Interaction::Pressed) && !input.missile@.contains(Interaction::Pressed)
            && !input.magnet_upgrade@.contains(Interaction::Pressed) ==> shop_step(s, input, ret) == (
            s,
            OreShopAction::Nothing,
        ),
        shop_step(s, input, ret).1 != OreShopAction::Close(GameState::Playing),
        shop_step(s, input, ret).1 != OreShopAction::Close(GameState::Paused),
{
}

/// A magnet press that no close, heal, or restock pre-empts buys the next
/// magnet level when the level is below 9 and the ore covers 5 times the
/// level plus 2, and otherwise only redraws the shop.
pub proof fn lemma_magnet_purchase(s: OreShopState, input: OreShopInput, ret: ShopReturnState)
    requires
        !input.close_key,
        !input.close@.contains(Interaction::Pressed),
        !(input.heal@.contains(Interaction::Pressed) && s.ore > 0 && input.player_hurt),
        !(input.missile@.contains(Interaction::Pressed) && s.ore > 0 && s.missile_ammo < s.missile_ammo_max),
        input.magnet_upgrade@.contains(Interaction::Pressed),
    ensures
        s.magnet_level.level < 9 && s.ore >= 5 * (s.magnet_level.level + 2) ==> shop_step(s, input, ret) == (
            OreShopState {
                ore: (s.ore - 5 * (s.magnet_level.level + 2)) as u32,
                magnet_level: OreAffinityLevel { level: (s.magnet_level.level + 1) as u32 },
                ..s
            },
            OreShopAction::Redraw,
        ),
        !(s.magnet_level.level < 9 && s.ore >= 5 * (s.magnet_level.level + 2)) ==> shop_step(s, input, ret) == (
            s,
            OreShopAction::Redraw,
        ),
{
}

/// Ore plus what was bought never grows: a frame spends at most the ore it
/// has, and each ore spent buys one heal, one missile, or its share of a
/// magnet level.
pub proof fn lemma_shop_never_overspends(s: OreShopState, input: OreShopInput, ret: ShopReturnState)
    ensures
        ({
            let (t, action) = shop_step(s, input, ret);
            &&& t.ore <= s.ore
            &&& t.missile_ammo <= s.missile_ammo_max || t.missile_ammo == s.missile_ammo
            &&& action == OreShopAction::Heal ==> t.ore + 1 == s.ore
            &&& t.missile_ammo > s.missile_ammo ==> t.missile_ammo == s.missile_ammo + 1 && t.ore + 1 == s.ore
            &&& t.magnet_level.level > s.magnet_level.level ==> t.ore + affinity_cost(
                s.magnet_level.level,
            )->0 == s.ore
        }),
{
}

/// The text and state of an upgrade card.
#[derive(Clone, Debug)]
pub struct UpgradeCardText {
    /// The upgrade button is live.
    pub can_upgrade: bool,
    pub button_label: Vec<char>,
    /// The line under the button: the cost, and whether the ore covers it.
    pub cost_status: Vec<char>,
    pub level_text: Vec<char>,
}

/// The upgrade button's label for the next level's cost (none at the top).
pub open spec fn upgrade_button_label(cost: Option<u32>) -> Seq<char> {
    match cost {
        None => "\u{2014} MAX LEVEL \u{2014}"@,
        Some(c) => "UPGRADE ("@ + decimal(c as nat) + " \u{1F48E})"@,
    }
}

/// The cost line of an upgrade card.
pub open spec fn upgrade_cost_status(cost: Option<u32>, affordable: bool) -> Seq<char> {
    match cost {
        None => "MAX LEVEL REACHED"@,
        Some(c) => if affordable {
            "Cost: "@ + decimal(c as nat) + " \u{1F48E}"@
        } else {
            "Need "@ + decimal(c as nat) + " \u{1F48E}"@
        },
    }
}

/// "Level N / M".
pub open spec fn level_caption(shown: nat, top: nat) -> Seq<char> {
    "Level "@ + decimal(shown) + " / "@ + decimal(top)
}

/// The magnet card: live when the ore pays for the next level; its button
/// and cost line name that cost, or the top level once reached.
pub fn magnet_upgrade_card(magnet: &OreAffinityLevel, ore: u32) -> (card: UpgradeCardText)
    requires
        magnet.level < u32::MAX,
    ensures
        card.can_upgrade == affinity_affordable(magnet.level, ore),
        card.button_label@ == upgrade_button_label(affinity_cost(magnet.level)),
        card.cost_status@ == upgrade_cost_status(affinity_cost(magnet.level), card.can_upgrade),
        card.level_text@ == level_caption((magnet.level + 1) as nat, ORE_AFFINITY_MAX_LEVEL as nat),
{
    let can_upgrade = !magnet.is_maxed() && magnet.can_afford_next(ore);
    let mut button_label: Vec<char> = Vec::new();
    let mut cost_status: Vec<char> = Vec::new();
    match magnet.cost_for_next_level() {
        None => {
            push_str(&mut button_label, "\u{2014} MAX LEVEL \u{2014}");
            push_str(&mut cost_status, "MAX LEVEL REACHED");
        },
        Some(cost) => {
            push_str(&mut button_label, "UPGRADE (");
            push_decimal(&mut button_label, cost as u64);
            push_str(&mut button_label, " \u{1F48E})");
            if can_upgrade {
                push_str(&mut cost_status, "Cost: ");
            } else {
                push_str(&mut cost_status, "Need ");
            }
            push_decimal(&mut cost_status, cost as u64);
            push_str(&mut cost_status, " \u{1F48E}");
        },
    }
    let mut level_text: Vec<char> = Vec::new();
    push_str(&mut level_text, "Level ");
    push_decimal(&mut level_text, magnet.display_level() as u64);
    push_str(&mut level_text, " / ");
    push_decimal(&mut level_text, ORE_AFFINITY_MAX_LEVEL as u64);
    UpgradeCardText { can_upgrade, button_label, cost_status, level_text }
}

/// The shop's ore line: "💎 available: N".
pub open spec fn ore_caption(ore: u32) -> Seq<char> {
    "\u{1F48E} available: "@ + decimal(ore as nat)
}

/// The missile button's label: the stock out of the maximum, and the price.
pub open spec fn missile_caption(ammo: u32, ammo_max: u32) -> Seq<char> {
    "\u{1F680} MISSILE \u{1F680}  ("@ + decimal(ammo as nat) + " / "@ + decimal(ammo_max as nat)
        + ")  -  1 \u{1F48E} -> +1 \u{1F680}"@
}

/// The integer-valued labels of the shop overlay.
#[derive(Clone, Debug)]
pub struct OreShopLabels {
    pub ore_text: Vec<char>,
    /// The heal button is live: there is ore, and the player is hurt.
    pub can_heal: bool,
    /// The missile button is live: there is ore, and room in the launcher.
    pub can_missile: bool,
    pub missile_label: Vec<char>,
    pub magnet: UpgradeCardText,
}

/// The labels the shop overlay shows for the shop's state, `player_hurt`
/// telling whether the player's health is below its maximum.
pub fn ore_shop_labels(shop: &OreShopState, player_hurt: bool) -> (labels: OreShopLabels)
    requires
        shop.magnet_level.level < u32::MAX,
    ensures
        labels.ore_text@ == ore_caption(shop.ore),
        labels.can_heal == (shop.ore > 0 && player_hurt),
        labels.can_missile == (shop.ore > 0 && shop.missile_ammo < shop.missile_ammo_max),
        labels.missile_label@ == missile_caption(shop.missile_ammo, shop.missile_ammo_max),
        labels.magnet.can_upgrade == affinity_affordable(shop.magnet_level.level, shop.ore),
        labels.magnet.button_label@ == upgrade_button_label(affinity_cost(shop.magnet_level.level)),
        labels.magnet.cost_status@ == upgrade_cost_status(
            affinity_cost(shop.magnet_level.level),
            labels.magnet.can_upgrade,
        ),
        labels.magnet.level_text@ == level_caption((shop.magnet_level.level + 1) as nat, ORE_AFFINITY_MAX_LEVEL as nat),
{
    let mut ore_text: Vec<char> = Vec::new();
    push_str(&mut ore_text, "\u{1F48E} available: ");
    push_decimal(&mut ore_text, shop.ore as u64);
    let mut missile_label: Vec<char> = Vec::new();
    push_str(&mut missile_label, "\u{1F680} MISSILE \u{1F680}  (");
    push_decimal(&mut missile_label, shop.missile_ammo as u64);
    push_str(&mut missile_label, " / ");
    push_decimal(&mut missile_label, shop.missile_ammo_max as u64);
    push_str(&mut missile_label, ")  -  1 \u{1F48E} -> +1 \u{1F680}");
    OreShopLabels {
        ore_text,
        can_heal: shop.ore > 0 && player_hurt,
        can_missile: shop.ore > 0 && shop.missile_ammo < shop.missile_ammo_max,
        missile_label,
        magnet: magnet_upgrade_card(&shop.magnet_level, shop.ore),
    }
}

/// Despawns the ore shop overlay: the entities to remove.
pub fn cleanup_ore_shop(entities: &Vec<WorldEntity>) -> (despawn: Vec<u64>)
    ensures
        despawn@ == ids_of_kinds(entities@, seq![EntityKind::OreShopRoot]),
{
    despawn_roots(entities, EntityKind::OreShopRoot)
}

} // verus!
