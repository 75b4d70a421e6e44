use accretion::menu::cleanup::{EntityKind, WorldEntity};
use accretion::campaign::{
    bootstrap_campaign_progression_state, bootstrap_campaign_session,
    bootstrap_campaign_wave_director, campaign_progression_system, campaign_wave_director_system,
    configure_active_wave, load_mission_into_session, mark_campaign_failure_on_game_over,
    CampaignMissionCatalog, CampaignProgressionState, CampaignSession, CampaignWaveDirector,
    CampaignWavePhase,
};
use accretion::enemy::{EnemySpawnConfig, EnemySpawnState};
use accretion::menu::types::{SelectedGameMode, SelectedScenario};

fn spawn_config() -> EnemySpawnConfig {
    EnemySpawnConfig {
        enemy_stage_time_ms: 45_000,
        enemy_stage_score_points: 300,
        enemy_max_count_base: 1,
        enemy_max_count_per_stage: 1,
        enemy_max_count_cap: 4,
        enemy_spawn_base_cooldown_ms: 6_000,
        enemy_spawn_cooldown_per_stage_ms: 500,
        enemy_spawn_cooldown_min_ms: 1_500,
    }
}

fn session(active: bool, mission_index: u32, wave_count: u32, next: Option<u32>) -> CampaignSession {
    CampaignSession {
        active,
        mission_index,
        map_scenario: SelectedScenario::Field,
        wave_count,
        reward_ore: 20,
        next_mission_id: next,
        run_counter: 1,
    }
}

#[test]
fn catalog_contains_mission_one() {
    let catalog = CampaignMissionCatalog::default();
    let mission = catalog
        .mission_by_id(1)
        .expect("default campaign catalog must include mission 1");
    assert_eq!(mission.mission_id, 1);
    assert!(mission.wave_count >= 1);
}

#[test]
fn bootstrap_campaign_loads_requested_mission_from_catalog() {
    let catalog = CampaignMissionCatalog::default();
    let mut session = CampaignSession {
        active: false,
        mission_index: 2,
        map_scenario: SelectedScenario::Field,
        wave_count: 0,
        reward_ore: 0,
        next_mission_id: None,
        run_counter: 0,
    };
    bootstrap_campaign_session(SelectedGameMode::Campaign, &catalog, &mut session);
    assert!(session.active);
    assert_eq!(session.mission_index, 2);
    assert_eq!(session.map_scenario, SelectedScenario::Comets);
    assert!(session.wave_count >= 1);
    assert!(session.run_counter >= 1);
}

#[test]
fn bootstrap_wave_director_starts_at_warmup_for_campaign() {
    let s = CampaignSession {
        active: true,
        mission_index: 1,
        map_scenario: SelectedScenario::Field,
        wave_count: 3,
        reward_ore: 20,
        next_mission_id: Some(2),
        run_counter: 1,
    };
    let mut director = CampaignWaveDirector::default();
    bootstrap_campaign_wave_director(&spawn_config(), &s, &mut director);
    assert_eq!(director.phase, CampaignWavePhase::Warmup);
    assert_eq!(director.current_wave, 1);
    assert_eq!(director.total_waves, 3);
}

#[test]
fn wave_director_transitions_to_complete_on_last_wave_clear() {
    let s = session(true, 1, 1, None);
    let mut director = CampaignWaveDirector {
        phase: CampaignWavePhase::ActiveWave,
        current_wave: 1,
        total_waves: 1,
        phase_timer_ms: 0,
        target_spawns_this_wave: 2,
        spawned_this_wave: 2,
        max_concurrent_enemies: 1,
        spawn_cooldown_ms: 1000,
    };
    campaign_wave_director_system(0, &s, &spawn_config(), 0, &mut director);
    assert_eq!(director.phase, CampaignWavePhase::Complete);
}

#[test]
fn catalog_lookup_misses_unknown_ids() {
    let catalog = CampaignMissionCatalog::default();
    assert!(catalog.mission_by_id(0).is_none());
    assert!(catalog.mission_by_id(4).is_none());
    assert_eq!(catalog.first_mission().unwrap().mission_id, 1);
    let empty = CampaignMissionCatalog { missions: Vec::new() };
    assert!(empty.first_mission().is_none());
}

#[test]
fn default_catalog_chains_missions_one_to_three() {
    let catalog = CampaignMissionCatalog::default();
    let m1 = catalog.mission_by_id(1).unwrap();
    assert_eq!(m1.next_mission_id, Some(2));
    let m2 = catalog.mission_by_id(2).unwrap();
    assert_eq!(m2.map_scenario, SelectedScenario::Comets);
    assert_eq!(m2.next_mission_id, Some(3));
    let m3 = catalog.mission_by_id(3).unwrap();
    assert_eq!(m3.map_scenario, SelectedScenario::Orbit);
    assert_eq!((m3.wave_count, m3.reward_ore, m3.next_mission_id), (5, 50, None));
}

#[test]
fn load_mission_falls_back_to_first_then_to_single_wave_field() {
    let catalog = CampaignMissionCatalog::default();
    let mut s = session(true, 0, 0, None);
    load_mission_into_session(&mut s, &catalog, 9);
    assert_eq!((s.mission_index, s.wave_count, s.reward_ore), (1, 3, 20));
    load_mission_into_session(&mut s, &catalog, 0);
    assert_eq!(s.mission_index, 1);
    let empty = CampaignMissionCatalog { missions: Vec::new() };
    load_mission_into_session(&mut s, &empty, 3);
    assert_eq!(s.mission_index, 1);
    assert_eq!(s.map_scenario, SelectedScenario::Field);
    assert_eq!((s.wave_count, s.reward_ore, s.next_mission_id), (1, 0, None));
}

#[test]
fn practice_mode_clears_campaign_fields() {
    let catalog = CampaignMissionCatalog::default();
    let mut s = session(true, 3, 5, Some(4));
    s.run_counter = 7;
    bootstrap_campaign_session(SelectedGameMode::Practice, &catalog, &mut s);
    assert!(!s.active);
    assert_eq!((s.mission_index, s.wave_count, s.reward_ore), (0, 0, 0));
    assert_eq!(s.next_mission_id, None);
    assert_eq!(s.run_counter, 7);
}

#[test]
fn run_counter_saturates() {
    let catalog = CampaignMissionCatalog::default();
    let mut s = session(false, 1, 0, None);
    s.run_counter = u64::MAX;
    bootstrap_campaign_session(SelectedGameMode::Campaign, &catalog, &mut s);
    assert_eq!(s.run_counter, u64::MAX);
}

#[test]
fn inactive_session_gets_idle_director() {
    let mut director = CampaignWaveDirector {
        phase: CampaignWavePhase::ActiveWave,
        current_wave: 2,
        total_waves: 3,
        phase_timer_ms: 10,
        target_spawns_this_wave: 4,
        spawned_this_wave: 1,
        max_concurrent_enemies: 2,
        spawn_cooldown_ms: 900,
    };
    bootstrap_campaign_wave_director(&spawn_config(), &session(false, 1, 3, None), &mut director);
    assert_eq!(director.phase, CampaignWavePhase::Inactive);
    assert_eq!(director.current_wave, 0);
    assert_eq!(director.spawn_cooldown_ms, 0);
}

#[test]
fn armed_wave_scales_with_wave_number() {
    let config = spawn_config();
    let mut d = CampaignWaveDirector::default();
    d.current_wave = 1;
    configure_active_wave(&mut d, &config);
    assert_eq!(d.phase, CampaignWavePhase::ActiveWave);
    assert_eq!((d.target_spawns_this_wave, d.max_concurrent_enemies), (2, 1));
    assert_eq!(d.spawn_cooldown_ms, 6_000);
    d.current_wave = 6;
    configure_active_wave(&mut d, &config);
    // wave index 5: 12 spawns, 6 concurrent capped at 4, 6000 * 5 / 10 = 3000 ms
    assert_eq!((d.target_spawns_this_wave, d.max_concurrent_enemies), (12, 4));
    assert_eq!(d.spawn_cooldown_ms, 3_000);
    d.current_wave = 40;
    configure_active_wave(&mut d, &config);
    // 2 + 39 * 2 capped at 20; 6000 * 5 / 44 = 681 under the 1500 floor
    assert_eq!(d.target_spawns_this_wave, 20);
    assert_eq!(d.spawn_cooldown_ms, 1_500);
}

#[test]
fn wave_loop_runs_through_all_waves() {
    let config = spawn_config();
    let s = session(true, 1, 2, None);
    let mut d = CampaignWaveDirector::default();
    bootstrap_campaign_wave_director(&config, &s, &mut d);
    assert_eq!(d.phase_timer_ms, 2000);
    campaign_wave_director_system(1500, &s, &config, 0, &mut d);
    assert_eq!((d.phase, d.phase_timer_ms), (CampaignWavePhase::Warmup, 500));
    campaign_wave_director_system(600, &s, &config, 0, &mut d);
    assert_eq!(d.phase, CampaignWavePhase::ActiveWave);
    // spawns outstanding: the wave stays active
    campaign_wave_director_system(16, &s, &config, 0, &mut d);
    assert_eq!(d.phase, CampaignWavePhase::ActiveWave);
    d.spawned_this_wave = d.target_spawns_this_wave;
    // an enemy is still alive
    campaign_wave_director_system(16, &s, &config, 1, &mut d);
    assert_eq!(d.phase, CampaignWavePhase::ActiveWave);
    campaign_wave_director_system(16, &s, &config, 0, &mut d);
    assert_eq!((d.phase, d.phase_timer_ms), (CampaignWavePhase::InterWaveBreak, 4000));
    campaign_wave_director_system(4000, &s, &config, 0, &mut d);
    assert_eq!((d.phase, d.current_wave, d.phase_timer_ms), (CampaignWavePhase::Warmup, 2, 1500));
    campaign_wave_director_system(1500, &s, &config, 0, &mut d);
    assert_eq!(d.phase, CampaignWavePhase::ActiveWave);
    assert_eq!(d.target_spawns_this_wave, 4);
    d.spawned_this_wave = 4;
    campaign_wave_director_system(16, &s, &config, 0, &mut d);
    assert_eq!(d.phase, CampaignWavePhase::Complete);
    let done = d;
    campaign_wave_director_system(5000, &s, &config, 3, &mut d);
    assert_eq!((d.phase, d.current_wave, d.phase_timer_ms), (done.phase, done.current_wave, done.phase_timer_ms));
}

#[test]
fn director_ignores_inactive_session() {
    let config = spawn_config();
    let mut d = CampaignWaveDirector::default();
    bootstrap_campaign_wave_director(&config, &session(true, 1, 2, None), &mut d);
    campaign_wave_director_system(5000, &session(false, 1, 2, None), &config, 0, &mut d);
    assert_eq!((d.phase, d.phase_timer_ms), (CampaignWavePhase::Warmup, 2000));
}

#[test]
fn progression_waits_then_loads_next_mission() {
    let config = spawn_config();
    let catalog = CampaignMissionCatalog::default();
    let mut s = session(true, 1, 3, Some(2));
    let mut p = CampaignProgressionState::default();
    let mut wave = CampaignWaveDirector::default();
    wave.phase = CampaignWavePhase::Complete;
    wave.current_wave = 3;
    wave.total_waves = 3;
    let mut spawn = EnemySpawnState { timer_ms: 400, session_elapsed_ms: 90_000, total_spawned: 12 };

    assert_eq!(campaign_progression_system(16, &config, &catalog, &mut s, &mut p, &mut wave, &mut spawn, &world()), (None, vec![]));
    assert!(p.pending_advance);
    assert_eq!(p.advance_timer_ms, 1000);
    assert_eq!(campaign_progression_system(600, &config, &catalog, &mut s, &mut p, &mut wave, &mut spawn, &world()), (None, vec![]));
    assert_eq!(p.advance_timer_ms, 400);
    let (rebuild, despawn) =
        campaign_progression_system(400, &config, &catalog, &mut s, &mut p, &mut wave, &mut spawn, &world());
    assert_eq!(rebuild, Some(SelectedScenario::Comets));
    // Asteroids, enemies and their shots, projectiles, missiles, particles and
    // ore go; the player, a boss, ion shots and the HUD stay.
    assert_eq!(despawn, vec![1, 3, 5, 6, 7, 9, 10]);
    assert_eq!((s.mission_index, s.wave_count, s.next_mission_id), (2, 4, Some(3)));
    assert!(!p.pending_advance);
    assert_eq!((wave.phase, wave.current_wave, wave.total_waves), (CampaignWavePhase::Warmup, 1, 4));
    assert_eq!((wave.phase_timer_ms, wave.spawn_cooldown_ms), (1500, 6_000));
    assert_eq!((spawn.timer_ms, spawn.session_elapsed_ms, spawn.total_spawned), (0, 0, 12));
}

#[test]
fn progression_stops_after_last_mission() {
    let config = spawn_config();
    let catalog = CampaignMissionCatalog::default();
    let mut s = session(true, 3, 5, None);
    let mut p = CampaignProgressionState { pending_advance: true, advance_timer_ms: 10, mission_failed: false };
    let mut wave = CampaignWaveDirector::default();
    wave.phase = CampaignWavePhase::Complete;
    let mut spawn = EnemySpawnState::new();
    assert_eq!(campaign_progression_system(16, &config, &catalog, &mut s, &mut p, &mut wave, &mut spawn, &world()), (None, vec![]));
    assert!(!p.pending_advance);
    assert_eq!(s.mission_index, 3);
    assert_eq!(wave.phase, CampaignWavePhase::Complete);
}

#[test]
fn progression_ignores_unfinished_missions() {
    let config = spawn_config();
    let catalog = CampaignMissionCatalog::default();
    let mut s = session(true, 1, 3, Some(2));
    let mut p = CampaignProgressionState::default();
    let mut wave = CampaignWaveDirector::default();
    wave.phase = CampaignWavePhase::ActiveWave;
    let mut spawn = EnemySpawnState::new();
    assert_eq!(campaign_progression_system(16, &config, &catalog, &mut s, &mut p, &mut wave, &mut spawn, &world()), (None, vec![]));
    assert!(!p.pending_advance);
}

#[test]
fn game_over_marks_campaign_failed() {
    let mut p = CampaignProgressionState { pending_advance: true, advance_timer_ms: 300, mission_failed: false };
    let mut wave = CampaignWaveDirector::default();
    wave.phase = CampaignWavePhase::ActiveWave;
    mark_campaign_failure_on_game_over(&session(false, 1, 3, None), &mut p, &mut wave);
    assert!(p.pending_advance && !p.mission_failed);
    mark_campaign_failure_on_game_over(&session(true, 1, 3, None), &mut p, &mut wave);
    assert!(p.mission_failed && !p.pending_advance);
    assert_eq!(p.advance_timer_ms, 0);
    assert_eq!(wave.phase, CampaignWavePhase::Inactive);
    bootstrap_campaign_progression_state(&session(true, 1, 3, None), &mut p);
    assert!(!p.mission_failed && !p.pending_advance);
}

fn world() -> Vec<WorldEntity> {
    [
        EntityKind::Asteroid,
        EntityKind::Player,
        EntityKind::Enemy,
        EntityKind::Boss,
        EntityKind::EnemyProjectile,
        EntityKind::Projectile,
        EntityKind::Missile,
        EntityKind::IonCannonShot,
        EntityKind::Particle,
        EntityKind::OrePickup,
        EntityKind::Hud,
    ]
    .iter()
    .enumerate()
    .map(|(i, k)| WorldEntity { id: i as u64 + 1, kind: *k })
    .collect()
}
