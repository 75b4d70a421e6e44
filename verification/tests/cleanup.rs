use accretion::campaign::{
    CampaignProgressionState, CampaignSession, CampaignWaveDirector, CampaignWavePhase,
};
use accretion::enemy::EnemySpawnState;
use accretion::menu::campaign_select::cleanup_campaign_select_menu;
use accretion::menu::cleanup::{
    cleanup_game_world, reset_campaign_retry_world, EntityKind, MissileAmmo, PlayerLives,
    PlayerScore, PlayerUiEntities, SessionResources, SimulationStats, WorldEntity,
};
use accretion::menu::game_over::cleanup_game_over;
use accretion::menu::load_game::cleanup_load_game_menu;
use accretion::menu::main_menu::cleanup_main_menu;
use accretion::menu::ore_shop::cleanup_ore_shop;
use accretion::menu::pause::cleanup_pause_menu;
use accretion::menu::scenario_select::cleanup_scenario_select;
use accretion::menu::types::{SelectedGameMode, SelectedScenario};
use accretion::mining::{OreAffinityLevel, PlayerOre};

fn busy_session() -> SessionResources {
    SessionResources {
        score: PlayerScore { hits: 7, destroyed: 4, streak: 3, points: 250 },
        lives: PlayerLives { remaining: 1, respawn_timer_ms: Some(500) },
        stats: SimulationStats {
            live_count: 10,
            culled_total: 2,
            merged_total: 3,
            split_total: 1,
            destroyed_total: 5,
        },
        ore: PlayerOre { count: 42 },
        missile_ammo: MissileAmmo { count: 1 },
        player_ui: PlayerUiEntities::default(),
        enemy_spawn: EnemySpawnState {
            timer_ms: 1000,
            session_elapsed_ms: 99_000,
            total_spawned: 77,
        },
        campaign_session: CampaignSession {
            active: true,
            mission_index: 2,
            map_scenario: SelectedScenario::Comets,
            wave_count: 4,
            reward_ore: 30,
            next_mission_id: Some(3),
            run_counter: 5,
        },
        wave_director: CampaignWaveDirector {
            phase: CampaignWavePhase::ActiveWave,
            current_wave: 2,
            total_waves: 4,
            phase_timer_ms: 800,
            target_spawns_this_wave: 3,
            spawned_this_wave: 1,
            max_concurrent_enemies: 1,
            spawn_cooldown_ms: 2000,
        },
        progression: CampaignProgressionState {
            pending_advance: false,
            advance_timer_ms: 0,
            mission_failed: true,
        },
        magnet_level: OreAffinityLevel { level: 4 },
    }
}

fn busy_world() -> Vec<WorldEntity> {
    let kinds = [
        EntityKind::Asteroid,
        EntityKind::Player,
        EntityKind::Enemy,
        EntityKind::Projectile,
        EntityKind::Missile,
        EntityKind::IonCannonShot,
        EntityKind::Particle,
        EntityKind::OrePickup,
        EntityKind::HealthBarBg,
        EntityKind::HealthBarFill,
        EntityKind::AimIndicator,
        EntityKind::Hud,
        EntityKind::Other,
        EntityKind::CampaignSelectRoot,
    ];
    kinds
        .iter()
        .enumerate()
        .map(|(i, k)| WorldEntity { id: 100 + i as u64, kind: *k })
        .collect()
}

#[test]
fn campaign_retry_reset_clears_runtime_state_and_entities() {
    let mut session = busy_session();
    let world = busy_world();
    session.player_ui = PlayerUiEntities {
        health_bar_bg: Some(108),
        health_bar_fill: Some(109),
        aim_indicator: Some(110),
    };

    let despawn = reset_campaign_retry_world(SelectedGameMode::Campaign, &world, &mut session);

    assert_eq!(session.score.points, 0);
    assert_eq!(session.score.hits, 0);
    assert_eq!(session.lives.respawn_timer_ms, None);
    assert_eq!(session.ore.count, 0);
    assert_eq!(session.missile_ammo.count, MissileAmmo::default().count);
    assert_eq!(session.enemy_spawn.total_spawned, 0);
    assert_eq!(session.stats.culled_total, 0);
    assert_eq!(session.stats.destroyed_total, 0);
    assert!(session.player_ui.health_bar_bg.is_none());
    assert!(session.player_ui.health_bar_fill.is_none());
    assert!(session.player_ui.aim_indicator.is_none());

    // Every gameplay entity and every piece of player UI goes.
    assert_eq!(despawn, (100..=110).collect::<Vec<u64>>());
}

#[test]
fn campaign_retry_keeps_progress_and_hud() {
    let mut session = busy_session();
    let before = busy_session();
    let world = busy_world();
    let despawn = reset_campaign_retry_world(SelectedGameMode::Campaign, &world, &mut session);
    assert!(!despawn.contains(&111), "the HUD stays");
    assert!(!despawn.contains(&112));
    assert!(!despawn.contains(&113));
    assert_eq!(session.campaign_session.mission_index, before.campaign_session.mission_index);
    assert_eq!(session.campaign_session.run_counter, 5);
    assert_eq!(session.wave_director.current_wave, 2);
    assert!(session.progression.mission_failed);
    assert_eq!(session.magnet_level.level, 4);
    assert_eq!(session.lives.remaining, 3);
    assert_eq!(session.enemy_spawn.timer_ms, 0);
    assert_eq!(session.enemy_spawn.session_elapsed_ms, 0);
}

#[test]
fn practice_retry_changes_nothing() {
    let mut session = busy_session();
    let despawn = reset_campaign_retry_world(SelectedGameMode::Practice, &busy_world(), &mut session);
    assert!(despawn.is_empty());
    assert_eq!(session.score.points, 250);
    assert_eq!(session.ore.count, 42);
    assert_eq!(session.enemy_spawn.total_spawned, 77);
}

#[test]
fn world_cleanup_clears_every_simulation_entity_and_the_hud() {
    let mut session = busy_session();
    let mut pipelines = vec![true, true];
    let despawn = cleanup_game_world(&busy_world(), &mut session, &mut pipelines);
    assert_eq!(despawn, vec![100, 101, 102, 103, 104, 105, 106, 107, 108, 109, 110, 111]);
    assert_eq!(pipelines, vec![false, false]);
    assert_eq!(session.score, PlayerScore { hits: 0, destroyed: 0, streak: 0, points: 0 });
    assert_eq!(session.lives, PlayerLives { remaining: 3, respawn_timer_ms: None });
    assert_eq!(session.stats.live_count, 0);
    assert_eq!(session.ore.count, 0);
    assert!(!session.campaign_session.active);
    assert_eq!(session.campaign_session.run_counter, 0);
    assert_eq!(session.wave_director.phase, CampaignWavePhase::Inactive);
    assert!(!session.progression.mission_failed);
    assert_eq!(session.magnet_level.level, 0);
    // The missile stock and the spawn clock are left alone.
    assert_eq!(session.missile_ammo.count, 1);
    assert_eq!(session.enemy_spawn.total_spawned, 77);
}

#[test]
fn menu_cleanups_take_only_their_screen() {
    let world = vec![
        WorldEntity { id: 1, kind: EntityKind::MainMenuRoot },
        WorldEntity { id: 2, kind: EntityKind::LoadGameRoot },
        WorldEntity { id: 3, kind: EntityKind::CampaignSelectRoot },
        WorldEntity { id: 4, kind: EntityKind::ScenarioSelectRoot },
        WorldEntity { id: 5, kind: EntityKind::PauseMenuRoot },
        WorldEntity { id: 6, kind: EntityKind::OreShopRoot },
        WorldEntity { id: 7, kind: EntityKind::GameOverRoot },
        WorldEntity { id: 8, kind: EntityKind::CampaignSelectRoot },
        WorldEntity { id: 9, kind: EntityKind::Hud },
    ];
    assert_eq!(cleanup_main_menu(&world), vec![1]);
    assert_eq!(cleanup_load_game_menu(&world), vec![2]);
    assert_eq!(cleanup_campaign_select_menu(&world), vec![3, 8]);
    assert_eq!(cleanup_scenario_select(&world), vec![4]);
    assert_eq!(cleanup_pause_menu(&world), vec![5]);
    assert_eq!(cleanup_ore_shop(&world), vec![6]);
    assert_eq!(cleanup_game_over(&world), vec![7]);
    assert!(cleanup_game_over(&[].to_vec()).is_empty());
}

#[test]
fn world_cleanup_takes_an_in_flight_ion_shot() {
    let world = vec![WorldEntity { id: 7, kind: EntityKind::IonCannonShot }];
    let mut session = busy_session();
    let mut pipelines: Vec<bool> = vec![];
    assert_eq!(cleanup_game_world(&world, &mut session, &mut pipelines), vec![7]);
}
