//! Menu and game-state navigation: which state each input leads to, the
//! campaign slot name editor, slot and shop labels, ore shop purchases, the
//! physics pause switch, and the teardown of a session.

pub mod campaign_select;
pub mod cleanup;
pub mod common;
pub mod game_over;
pub mod load_game;
pub mod main_menu;
pub mod ore_shop;
pub mod pause;
pub mod scenario_select;
pub mod types;
