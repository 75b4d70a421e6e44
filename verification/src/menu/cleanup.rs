//! Tearing a session down: which entities leave the world, and which session
//! resources return to their starting values, when the game world is cleared
//! on leaving play and when a campaign mission is retried after game over.

use vstd::prelude::*;
use crate::campaign::{idle_director, CampaignProgressionState, CampaignSession, CampaignWaveDirector};
use crate::enemy::EnemySpawnState;
use crate::menu::pause::pause_physics;
use crate::menu::types::{SelectedGameMode, SelectedScenario};
use crate::mining::{OreAffinityLevel, PlayerOre};

verus! {

/// Lives the player starts a run with.
pub const PLAYER_LIVES: i32 = 3;

/// Missiles the launcher holds when full.
pub const MISSILE_AMMO_MAX: u32 = 5;

/// The marker by which the world finds an entity.
#[derive(Clone, Copy, Debug, PartialEq, Eq, Structural)]
pub enum EntityKind {
    Asteroid,
    Player,
    Enemy,
    Boss,
    Projectile,
    Missile,
    IonCannonShot,
    EnemyProjectile,
    Particle,
    OrePickup,
    /// A HUD readout or debug layer (score, stats, inspector, profiler, debug
    /// panel, lives, missiles, ore, boundary ring, overlay layers).
    Hud,
    HealthBarBg,
    HealthBarFill,
    AimIndicator,
    MainMenuRoot,
    LoadGameRoot,
    CampaignSelectRoot,
    ScenarioSelectRoot,
    PauseMenuRoot,
    OreShopRoot,
    GameOverRoot,
    /// Anything else, such as the camera.
    Other,
}

/// An entity of the world, by id, with the marker it is found by.
#[derive(Clone, Copy, Debug, PartialEq, Eq, Structural)]
pub struct WorldEntity {
    pub id: u64,
    pub kind: EntityKind,
}

/// The ids of the entities whose kind is listed in `kinds`, in world order.
pub open spec fn ids_of_kinds(entities: Seq<WorldEntity>, kinds: Seq<EntityKind>) -> Seq<u64>
    decreases entities.len(),
{
    if entities.len() == 0 {
        Seq::empty()
    } else {
        let rest = ids_of_kinds(entities.drop_last(), kinds);
        if kinds.contains(entities.last().kind) {
            rest.push(entities.last().id)
        } else {
            rest
        }
    }
}

fn kind_listed(kinds: &Vec<EntityKind>, kind: EntityKind) -> (listed: bool)
    ensures
        listed == kinds@.contains(kind),
{
    let mut i: usize = 0;
    while i < kinds.len()
        invariant
            i <= kinds@.len(),
            forall|j: int| 0 <= j < i ==> kinds@[j] != kind,
        decreases kinds@.len() - i,
    {
        if kinds[i] == kind {
            return true;
        }
        i = i + 1;
    }
    false
}

/// The ids of the entities of the listed kinds.
fn despawn_ids(entities: &Vec<WorldEntity>, kinds: &Vec<EntityKind>) -> (ids: Vec<u64>)
    ensures
        ids@ == ids_of_kinds(entities@, kinds@),
{
    let mut ids: Vec<u64> = Vec::new();
    let mut i: usize = 0;
    while i < entities.len()
        invariant
            i <= entities@.len(),
            ids@ == ids_of_kinds(entities@.subrange(0, i as int), kinds@),
        decreases entities@.len() - i,
    {
        proof {
            assert(entities@.subrange(0, i + 1).drop_last() =~= entities@.subrange(0, i as int));
        }
        if kind_listed(kinds, entities[i].kind) {
            ids.push(entities[i].id);
        }
        i = i + 1;
    }
    proof {
        assert(entities@.subrange(0, entities@.len() as int) =~= entities@);
    }
    ids
}

/// Running score of the current run.
#[derive(Clone, Copy, Debug, PartialEq, Eq, Structural)]
pub struct PlayerScore {
    pub hits: u32,
    pub destroyed: u32,
    pub streak: u32,
    pub points: u32,
}

/// Lives left, and the time until the ship respawns when it is down.
#[derive(Clone, Copy, Debug, PartialEq, Eq, Structural)]
pub struct PlayerLives {
    pub remaining: i32,
    pub respawn_timer_ms: Option<u32>,
}

/// Counters of what the simulation did to asteroids.
#[derive(Clone, Copy, Debug, PartialEq, Eq, Structural)]
pub struct SimulationStats {
    pub live_count: u32,
    pub culled_total: u32,
    pub merged_total: u32,
    pub split_total: u32,
    pub destroyed_total: u32,
}

/// Missiles in the launcher.
#[derive(Clone, Copy, Debug, PartialEq, Eq, Structural)]
pub struct MissileAmmo {
    pub count: u32,
}

/// The entities that draw the player's health bar and aim indicator.
#[derive(Clone, Copy, Debug, PartialEq, Eq, Structural)]
pub struct PlayerUiEntities {
    pub health_bar_bg: Option<u64>,
    pub health_bar_fill: Option<u64>,
    pub aim_indicator: Option<u64>,
}

/// A run with no score.
pub open spec fn zero_score() -> PlayerScore {
    PlayerScore { hits: 0, destroyed: 0, streak: 0, points: 0 }
}

/// A full set of lives, the ship not waiting to respawn.
pub open spec fn full_lives() -> PlayerLives {
    PlayerLives { remaining: PLAYER_LIVES, respawn_timer_ms: None }
}

/// Counters that have counted nothing.
pub open spec fn zero_stats() -> SimulationStats {
    SimulationStats { live_count: 0, culled_total: 0, merged_total: 0, split_total: 0, destroyed_total: 0 }
}

/// No player UI entities.
pub open spec fn no_player_ui() -> PlayerUiEntities {
    PlayerUiEntities { health_bar_bg: None, health_bar_fill: None, aim_indicator: None }
}

impl Default for PlayerScore {
    /// No hits, no kills, no streak, no points.
    fn default() -> (s: Self)
        ensures
            s == zero_score(),
    {
        PlayerScore { hits: 0, destroyed: 0, streak: 0, points: 0 }
    }
}

impl Default for PlayerLives {
    /// A full set of lives.
    fn default() -> (l: Self)
        ensures
            l == full_lives(),
    {
        PlayerLives { remaining: PLAYER_LIVES, respawn_timer_ms: None }
    }
}

impl PlayerLives {
    /// Restores a full set of lives and cancels a pending respawn.
    pub fn reset(&mut self)
        ensures
            *final(self) == full_lives(),
    {
        self.remaining = PLAYER_LIVES;
        self.respawn_timer_ms = None;
    }
}

impl Default for SimulationStats {
    /// Nothing counted yet.
    fn default() -> (s: Self)
        ensures
            s == zero_stats(),
    {
        SimulationStats { live_count: 0, culled_total: 0, merged_total: 0, split_total: 0, destroyed_total: 0 }
    }
}

impl Default for MissileAmmo {
    /// A full launcher.
    fn default() -> (a: Self)
        ensures
            a.count == MISSILE_AMMO_MAX,
    {
        MissileAmmo { count: MISSILE_AMMO_MAX }
    }
}

impl Default for PlayerUiEntities {
    /// No UI entities spawned.
    fn default() -> (u: Self)
        ensures
            u == no_player_ui(),
    {
        PlayerUiEntities { health_bar_bg: None, health_bar_fill: None, aim_indicator: None }
    }
}

/// The session resources that a teardown resets.
#[derive(Clone, Copy, Debug)]
pub struct SessionResources {
    pub score: PlayerScore,
    pub lives: PlayerLives,
    pub stats: SimulationStats,
    pub ore: PlayerOre,
    pub missile_ammo: MissileAmmo,
    pub player_ui: PlayerUiEntities,
    pub enemy_spawn: EnemySpawnState,
    pub campaign_session: CampaignSession,
    pub wave_director: CampaignWaveDirector,
    pub progression: CampaignProgressionState,
    pub magnet_level: OreAffinityLevel,
}

/// No campaign run.
pub open spec fn no_campaign() -> CampaignSession {
    CampaignSession {
        active: false,
        mission_index: 0,
        map_scenario: SelectedScenario::Field,
        wave_count: 0,
        reward_ore: 0,
        next_mission_id: None,
        run_counter: 0,
    }
}

/// The entities that leaving the game world removes: everything that plays,
/// the HUD, and the player's UI.
pub open spec fn world_cleanup_kinds() -> Seq<EntityKind> {
    seq![
        EntityKind::Asteroid,
        EntityKind::Player,
        EntityKind::Enemy,
        EntityKind::Boss,
        EntityKind::Projectile,
        EntityKind::Missile,
        EntityKind::IonCannonShot,
        EntityKind::EnemyProjectile,
        EntityKind::Particle,
        EntityKind::OrePickup,
        EntityKind::Hud,
        EntityKind::HealthBarBg,
        EntityKind::HealthBarFill,
        EntityKind::AimIndicator,
    ]
}

/// The entities that a campaign retry removes: everything that plays and the
/// player's UI; the HUD stays.
pub open spec fn retry_kinds() -> Seq<EntityKind> {
    seq![
        EntityKind::Asteroid,
        EntityKind::Player,
        EntityKind::Enemy,
        EntityKind::Boss,
        EntityKind::Projectile,
        EntityKind::Missile,
        EntityKind::IonCannonShot,
        EntityKind::EnemyProjectile,
        EntityKind::Particle,
        EntityKind::OrePickup,
        EntityKind::HealthBarBg,
        EntityKind::HealthBarFill,
        EntityKind::AimIndicator,
    ]
}

/// The resources after leaving the game world: score, lives, statistics,
/// ore, player UI, the campaign session, its wave director and progression,
/// and the magnet upgrade all start over; the missile stock and the enemy
/// spawn clock are left as they are.
pub open spec fn after_world_cleanup(s: SessionResources) -> SessionResources {
    SessionResources {
        score: zero_score(),
        lives: full_lives(),
        stats: zero_stats(),
        ore: PlayerOre { count: 0 },
        player_ui: no_player_ui(),
        campaign_session: no_campaign(),
        wave_director: idle_director(),
        progression: CampaignProgressionState { pending_advance: false, advance_timer_ms: 0, mission_failed: false },
        magnet_level: OreAffinityLevel { level: 0 },
        ..s
    }
}

/// The resources after a campaign retry: score, lives, statistics, ore,
/// missile stock, player UI, and the enemy spawn clock start over; the
/// campaign's progress and upgrades are kept.
pub open spec fn after_retry(s: SessionResources) -> SessionResources {
    SessionResources {
        score: zero_score(),
        lives: full_lives(),
        stats: zero_stats(),
        ore: PlayerOre { count: 0 },
        missile_ammo: MissileAmmo { count: MISSILE_AMMO_MAX },
        player_ui: no_player_ui(),
        enemy_spawn: EnemySpawnState { timer_ms: 0, session_elapsed_ms: 0, total_spawned: 0 },
        ..s
    }
}

/// Clears the game world on leaving play: returns the entities to despawn,
/// resets the session resources, and switches physics off until the next
/// session begins.
pub fn cleanup_game_world(
    entities: &Vec<WorldEntity>,
    session: &mut SessionResources,
    pipeline_active: &mut Vec<bool>,
) -> (despawn: Vec<u64>)
    ensures
        despawn@ == ids_of_kinds(entities@, world_cleanup_kinds()),
        *final(session) == after_world_cleanup(*old(session)),
        final(pipeline_active)@.len() == old(pipeline_active)@.len(),
        forall|i: int| 0 <= i < final(pipeline_active)@.len() ==> !#[trigger] final(pipeline_active)@[i],
{
    let kinds: Vec<EntityKind> = vec![
        EntityKind::Asteroid,
        EntityKind::Player,
        EntityKind::Enemy,
        EntityKind::Boss,
        EntityKind::Projectile,
        EntityKind::Missile,
        EntityKind::IonCannonShot,
        EntityKind::EnemyProjectile,
        EntityKind::Particle,
        EntityKind::OrePickup,
        EntityKind::Hud,
        EntityKind::HealthBarBg,
        EntityKind::HealthBarFill,
        EntityKind::AimIndicator,
    ];
    proof {
        assert(kinds@ =~= world_cleanup_kinds());
    }
    let despawn = despawn_ids(entities, &kinds);
    session.player_ui = PlayerUiEntities::default();
    session.score = PlayerScore::default();
    session.lives.reset();
    session.stats = SimulationStats::default();
    session.ore = PlayerOre { count: 0 };
    session.campaign_session = CampaignSession::default();
    session.wave_director = CampaignWaveDirector::default();
    session.progression = CampaignProgressionState::default();
    session.magnet_level = OreAffinityLevel { level: 0 };
    pause_physics(pipeline_active);
    despawn
}

/// Resets the world for another try at a campaign mission after game over:
/// returns the entities to despawn and resets the per-attempt resources. Does
/// nothing outside a campaign.
pub fn reset_campaign_retry_world(
    mode: SelectedGameMode,
    entities: &Vec<WorldEntity>,
    session: &mut SessionResources,
) -> (despawn: Vec<u64>)
    ensures
        mode == SelectedGameMode::Campaign ==> despawn@ == ids_of_kinds(entities@, retry_kinds())
            && *final(session) == after_retry(*old(session)),
        mode != SelectedGameMode::Campaign ==> despawn@.len() == 0 && *final(session) == *old(session),
{
    if mode != SelectedGameMode::Campaign {
        return Vec::new();
    }
    let kinds: Vec<EntityKind> = vec![
        EntityKind::Asteroid,
        EntityKind::Player,
        EntityKind::Enemy,
        EntityKind::Boss,
        EntityKind::Projectile,
        EntityKind::Missile,
        EntityKind::IonCannonShot,
        EntityKind::EnemyProjectile,
        EntityKind::Particle,
        EntityKind::OrePickup,
        EntityKind::HealthBarBg,
        EntityKind::HealthBarFill,
        EntityKind::AimIndicator,
    ];
    proof {
        assert(kinds@ =~= retry_kinds());
    }
    let despawn = despawn_ids(entities, &kinds);
    session.player_ui = PlayerUiEntities::default();
    session.score = PlayerScore::default();
    session.lives.reset();
    session.stats = SimulationStats::default();
    session.ore = PlayerOre { count: 0 };
    session.missile_ammo = MissileAmmo::default();
    session.enemy_spawn = EnemySpawnState::new();
    despawn
}

/// The entities that moving on to the next campaign mission removes: the
/// asteroids, enemies and their shots, the player's projectiles and missiles,
/// particles, and ore pickups.
pub open spec fn mission_advance_kinds() -> Seq<EntityKind> {
    seq![
        EntityKind::Asteroid,
        EntityKind::Enemy,
        EntityKind::EnemyProjectile,
        EntityKind::Projectile,
        EntityKind::Missile,
        EntityKind::Particle,
        EntityKind::OrePickup,
    ]
}

/// The entities to despawn when the next campaign mission is loaded.
pub fn mission_advance_despawn(entities: &Vec<WorldEntity>) -> (despawn: Vec<u64>)
    ensures
        despawn@ == ids_of_kinds(entities@, mission_advance_kinds()),
{
    let kinds: Vec<EntityKind> = vec![
        EntityKind::Asteroid,
        EntityKind::Enemy,
        EntityKind::EnemyProjectile,
        EntityKind::Projectile,
        EntityKind::Missile,
        EntityKind::Particle,
        EntityKind::OrePickup,
    ];
    proof {
        assert(kinds@ =~= mission_advance_kinds());
    }
    despawn_ids(entities, &kinds)
}

/// The ids of the entities marked `root`: the screen that a menu cleanup
/// despawns.
pub fn despawn_roots(entities: &Vec<WorldEntity>, root: EntityKind) -> (despawn: Vec<u64>)
    ensures
        despawn@ == ids_of_kinds(entities@, seq![root]),
{
    let kinds: Vec<EntityKind> = vec![root];
    proof {
        assert(kinds@ =~= seq![root]);
    }
    despawn_ids(entities, &kinds)
}

/// No two entities share an id.
pub open spec fn distinct_ids(entities: Seq<WorldEntity>) -> bool {
    forall|i: int, j: int|
        0 <= i < entities.len() && 0 <= j < entities.len() && i != j ==> entities[i].id != entities[j].id
}

/// An id is despawned exactly when some entity of a listed kind has it.
pub proof fn lemma_ids_of_kinds_contains(entities: Seq<WorldEntity>, kinds: Seq<EntityKind>, id: u64)
    ensures
        ids_of_kinds(entities, kinds).contains(id) <==> exists|i: int|
            0 <= i < entities.len() && #[trigger] entities[i].id == id && kinds.contains(entities[i].kind),
    decreases entities.len(),
{
    if entities.len() > 0 {
        let init = entities.drop_last();
        let last = entities.len() - 1;
        let ids = ids_of_kinds(entities, kinds);
        let init_ids = ids_of_kinds(init, kinds);
        lemma_ids_of_kinds_contains(init, kinds, id);
        if ids.contains(id) {
            if init_ids.contains(id) {
                let i = choose|i: int| 0 <= i < init.len() && #[trigger] init[i].id == id && kinds.contains(init[i].kind);
                assert(entities[i] == init[i]);
            } else {
                assert(kinds.contains(entities[last].kind));
                assert(ids == init_ids.push(entities[last].id));
                let j = choose|j: int| 0 <= j < ids.len() && ids[j] == id;
                if j < init_ids.len() {
                    assert(init_ids[j] == id);
                    assert(false);
                }
                assert(entities[last].id == id);
            }
        }
        if exists|i: int| 0 <= i < entities.len() && #[trigger] entities[i].id == id && kinds.contains(entities[i].kind) {
            let i = choose|i: int| 0 <= i < entities.len() && #[trigger] entities[i].id == id && kinds.contains(entities[i].kind);
            if i < last {
                assert(init[i] == entities[i]);
                assert(init_ids.contains(id));
                let j = choose|j: int| 0 <= j < init_ids.len() && init_ids[j] == id;
                if kinds.contains(entities[last].kind) {
                    assert(ids == init_ids.push(entities[last].id));
                    assert(ids[j] == id);
                } else {
                    assert(ids == init_ids);
                }
                assert(ids.contains(id));
            } else {
                assert(ids == init_ids.push(id));
                assert(ids[init_ids.len() as int] == id);
            }
        }
    }
}

/// With distinct ids, an entity is despawned exactly when its kind is listed.
pub proof fn lemma_entity_despawned_iff_listed(entities: Seq<WorldEntity>, kinds: Seq<EntityKind>, i: int)
    requires
        distinct_ids(entities),
        0 <= i < entities.len(),
    ensures
        ids_of_kinds(entities, kinds).contains(entities[i].id) <==> kinds.contains(entities[i].kind),
{
    lemma_ids_of_kinds_contains(entities, kinds, entities[i].id);
}

/// A campaign retry keeps the campaign's progress, its upgrades, and the HUD:
/// the campaign session, its wave director and progression, and the magnet
/// level are untouched, and no HUD or menu entity is despawned.
pub proof fn lemma_retry_keeps_campaign_progress(s: SessionResources, entities: Seq<WorldEntity>, i: int)
    requires
        distinct_ids(entities),
        0 <= i < entities.len(),
    ensures
        after_retry(s).campaign_session == s.campaign_session,
        after_retry(s).wave_director == s.wave_director,
        after_retry(s).progression == s.progression,
        after_retry(s).magnet_level == s.magnet_level,
        entities[i].kind == EntityKind::Hud ==> !ids_of_kinds(entities, retry_kinds()).contains(entities[i].id),
        entities[i].kind == EntityKind::CampaignSelectRoot ==> !ids_of_kinds(entities, retry_kinds()).contains(
            entities[i].id,
        ),
{
    lemma_entity_despawned_iff_listed(entities, retry_kinds(), i);
    if retry_kinds().contains(entities[i].kind) {
        let k = choose|k: int| 0 <= k < retry_kinds().len() && retry_kinds()[k] == entities[i].kind;
        assert(entities[i].kind != EntityKind::Hud);
        assert(entities[i].kind != EntityKind::CampaignSelectRoot);
    }
}

/// Leaving play despawns every asteroid, ship, boss, shot of any kind,
/// particle, ore pickup, HUD element, and piece of player UI; with distinct
/// ids, nothing else (menus, the camera) is despawned.
pub proof fn lemma_world_cleanup_takes_every_gameplay_entity(entities: Seq<WorldEntity>, i: int)
    requires
        0 <= i < entities.len(),
    ensures
        ({
            let k = entities[i].kind;
            k == EntityKind::Asteroid
            || k == EntityKind::Player
            || k == EntityKind::Enemy
            || k == EntityKind::Boss
            || k == EntityKind::Projectile
            || k == EntityKind::Missile
            || k == EntityKind::IonCannonShot
            || k == EntityKind::EnemyProjectile
            || k == EntityKind::Particle
            || k == EntityKind::OrePickup
            || k == EntityKind::Hud
            || k == EntityKind::HealthBarBg
            || k == EntityKind::HealthBarFill
            || k == EntityKind::AimIndicator
        }) ==> ids_of_kinds(entities, world_cleanup_kinds()).contains(entities[i].id),
        distinct_ids(entities) && !({
            let k = entities[i].kind;
            k == EntityKind::Asteroid
            || k == EntityKind::Player
            || k == EntityKind::Enemy
            || k == EntityKind::Boss
            || k == EntityKind::Projectile
            || k == EntityKind::Missile
            || k == EntityKind::IonCannonShot
            || k == EntityKind::EnemyProjectile
            || k == EntityKind::Particle
            || k == EntityKind::OrePickup
            || k == EntityKind::Hud
            || k == EntityKind::HealthBarBg
            || k == EntityKind::HealthBarFill
            || k == EntityKind::AimIndicator
        }) ==> !ids_of_kinds(entities, world_cleanup_kinds()).contains(entities[i].id),
{
    let k = entities[i].kind;
    lemma_ids_of_kinds_contains(entities, world_cleanup_kinds(), entities[i].id);
    if world_cleanup_kinds().contains(k) {
        let j = choose|j: int| 0 <= j < world_cleanup_kinds().len() && world_cleanup_kinds()[j] == k;
        assert(j == 0 || j == 1 || j == 2 || j == 3 || j == 4 || j == 5 || j == 6 || j == 7 || j == 8 || j == 9 || j == 10 || j == 11 || j == 12 || j == 13);
    } else {
        assert(world_cleanup_kinds()[0] == EntityKind::Asteroid);
        assert(world_cleanup_kinds()[1] == EntityKind::Player);
        assert(world_cleanup_kinds()[2] == EntityKind::Enemy);
        assert(world_cleanup_kinds()[3] == EntityKind::Boss);
        assert(world_cleanup_kinds()[4] == EntityKind::Projectile);
        assert(world_cleanup_kinds()[5] == EntityKind::Missile);
        assert(world_cleanup_kinds()[6] == EntityKind::IonCannonShot);
        assert(world_cleanup_kinds()[7] == EntityKind::EnemyProjectile);
        assert(world_cleanup_kinds()[8] == EntityKind::Particle);
        assert(world_cleanup_kinds()[9] == EntityKind::OrePickup);
        assert(world_cleanup_kinds()[10] == EntityKind::Hud);
        assert(world_cleanup_kinds()[11] == EntityKind::HealthBarBg);
        assert(world_cleanup_kinds()[12] == EntityKind::HealthBarFill);
        assert(world_cleanup_kinds()[13] == EntityKind::AimIndicator);
    }
    if distinct_ids(entities) {
        lemma_entity_despawned_iff_listed(entities, world_cleanup_kinds(), i);
    }
}

/// A campaign retry despawns every asteroid, ship, boss, shot of any kind,
/// particle, ore pickup, and piece of player UI; with distinct ids, nothing
/// else (the HUD, menus, the camera) is despawned.
pub proof fn lemma_retry_takes_every_gameplay_entity(entities: Seq<WorldEntity>, i: int)
    requires
        0 <= i < entities.len(),
    ensures
        ({
            let k = entities[i].kind;
            k == EntityKind::Asteroid
            || k == EntityKind::Player
            || k == EntityKind::Enemy
            || k == EntityKind::Boss
            || k == EntityKind::Projectile
            || k == EntityKind::Missile
            || k == EntityKind::IonCannonShot
            || k == EntityKind::EnemyProjectile
            || k == EntityKind::Particle
            || k == EntityKind::OrePickup
            || k == EntityKind::HealthBarBg
            || k == EntityKind::HealthBarFill
            || k == EntityKind::AimIndicator
        }) ==> ids_of_kinds(entities, retry_kinds()).contains(entities[i].id),
        distinct_ids(entities) && !({
            let k = entities[i].kind;
            k == EntityKind::Asteroid
            || k == EntityKind::Player
            || k == EntityKind::Enemy
            || k == EntityKind::Boss
            || k == EntityKind::Projectile
            || k == EntityKind::Missile
            || k == EntityKind::IonCannonShot
            || k == EntityKind::EnemyProjectile
            || k == EntityKind::Particle
            || k == EntityKind::OrePickup
            || k == EntityKind::HealthBarBg
            || k == EntityKind::HealthBarFill
            || k == EntityKind::AimIndicator
        }) ==> !ids_of_kinds(entities, retry_kinds()).contains(entities[i].id),
{
    let k = entities[i].kind;
    lemma_ids_of_kinds_contains(entities, retry_kinds(), entities[i].id);
    if retry_kinds().contains(k) {
        let j = choose|j: int| 0 <= j < retry_kinds().len() && retry_kinds()[j] == k;
        assert(j == 0 || j == 1 || j == 2 || j == 3 || j == 4 || j == 5 || j == 6 || j == 7 || j == 8 || j == 9 || j == 10 || j == 11 || j == 12);
    } else {
        assert(retry_kinds()[0] == EntityKind::Asteroid);
        assert(retry_kinds()[1] == EntityKind::Player);
        assert(retry_kinds()[2] == EntityKind::Enemy);
        assert(retry_kinds()[3] == EntityKind::Boss);
        assert(retry_kinds()[4] == EntityKind::Projectile);
        assert(retry_kinds()[5] == EntityKind::Missile);
        assert(retry_kinds()[6] == EntityKind::IonCannonShot);
        assert(retry_kinds()[7] == EntityKind::EnemyProjectile);
        assert(retry_kinds()[8] == EntityKind::Particle);
        assert(retry_kinds()[9] == EntityKind::OrePickup);
        assert(retry_kinds()[10] == EntityKind::HealthBarBg);
        assert(retry_kinds()[11] == EntityKind::HealthBarFill);
        assert(retry_kinds()[12] == EntityKind::AimIndicator);
    }
    if distinct_ids(entities) {
        lemma_entity_despawned_iff_listed(entities, retry_kinds(), i);
    }
}

/// Moving on to the next mission despawns every asteroid, enemy, enemy shot,
/// player projectile and missile, particle, and ore pickup; with distinct ids,
/// nothing else (the player, bosses, ion shots, the HUD) is despawned.
pub proof fn lemma_mission_advance_takes_the_old_mission(entities: Seq<WorldEntity>, i: int)
    requires
        0 <= i < entities.len(),
    ensures
        ({
            let k = entities[i].kind;
            k == EntityKind::Asteroid
            || k == EntityKind::Enemy
            || k == EntityKind::EnemyProjectile
            || k == EntityKind::Projectile
            || k == EntityKind::Missile
            || k == EntityKind::Particle
            || k == EntityKind::OrePickup
        }) ==> ids_of_kinds(entities, mission_advance_kinds()).contains(entities[i].id),
        distinct_ids(entities) && !({
            let k = entities[i].kind;
            k == EntityKind::Asteroid
            || k == EntityKind::Enemy
            || k == EntityKind::EnemyProjectile
            || k == EntityKind::Projectile
            || k == EntityKind::Missile
            || k == EntityKind::Particle
            || k == EntityKind::OrePickup
        }) ==> !ids_of_kinds(entities, mission_advance_kinds()).contains(entities[i].id),
{
    let k = entities[i].kind;
    lemma_ids_of_kinds_contains(entities, mission_advance_kinds(), entities[i].id);
    if mission_advance_kinds().contains(k) {
        let j = choose|j: int| 0 <= j < mission_advance_kinds().len() && mission_advance_kinds()[j] == k;
        assert(j == 0 || j == 1 || j == 2 || j == 3 || j == 4 || j == 5 || j == 6);
    } else {
        assert(mission_advance_kinds()[0] == EntityKind::Asteroid);
        assert(mission_advance_kinds()[1] == EntityKind::Enemy);
        assert(mission_advance_kinds()[2] == EntityKind::EnemyProjectile);
        assert(mission_advance_kinds()[3] == EntityKind::Projectile);
        assert(mission_advance_kinds()[4] == EntityKind::Missile);
        assert(mission_advance_kinds()[5] == EntityKind::Particle);
        assert(mission_advance_kinds()[6] == EntityKind::OrePickup);
    }
    if distinct_ids(entities) {
        lemma_entity_despawned_iff_listed(entities, mission_advance_kinds(), i);
    }
}

/// Leaving play zeroes the score, the statistics and the ore, restores three
/// lives with no respawn pending, forgets the player UI, ends the campaign run
/// (no session, an idle wave loop, nothing pending or failed), and puts the
/// magnet back to its base level; the missile stock and the enemy spawn clock
/// are kept.
pub proof fn lemma_world_cleanup_resets(s: SessionResources)
    ensures
        ({
            let t = after_world_cleanup(s);
            &&& t.score == PlayerScore { hits: 0, destroyed: 0, streak: 0, points: 0 }
            &&& t.lives == PlayerLives { remaining: 3, respawn_timer_ms: None }
            &&& t.stats == SimulationStats {
                live_count: 0,
                culled_total: 0,
                merged_total: 0,
                split_total: 0,
                destroyed_total: 0,
            }
            &&& t.ore.count == 0
            &&& t.player_ui == PlayerUiEntities { health_bar_bg: None, health_bar_fill: None, aim_indicator: None }
            &&& !t.campaign_session.active && t.campaign_session.mission_index == 0
            &&& t.campaign_session.wave_count == 0 && t.campaign_session.next_mission_id is None
            &&& t.campaign_session.run_counter == 0
            &&& t.wave_director.phase == crate::campaign::CampaignWavePhase::Inactive
            &&& t.wave_director.current_wave == 0 && t.wave_director.total_waves == 0
            &&& !t.progression.pending_advance && !t.progression.mission_failed
            &&& t.magnet_level.level == 0
            &&& t.missile_ammo == s.missile_ammo
            &&& t.enemy_spawn == s.enemy_spawn
        }),
{
}

/// A campaign retry zeroes the score, the statistics and the ore, restores
/// three lives with no respawn pending, refills the launcher to five
/// missiles, forgets the player UI, and restarts the enemy spawn clock from
/// nothing; the campaign run, its wave loop and progression, and the magnet
/// are kept.
pub proof fn lemma_retry_resets(s: SessionResources)
    ensures
        ({
            let t = after_retry(s);
            &&& t.score == PlayerScore { hits: 0, destroyed: 0, streak: 0, points: 0 }
            &&& t.lives == PlayerLives { remaining: 3, respawn_timer_ms: None }
            &&& t.stats == SimulationStats {
                live_count: 0,
                culled_total: 0,
                merged_total: 0,
                split_total: 0,
                destroyed_total: 0,
            }
            &&& t.ore.count == 0
            &&& t.missile_ammo.count == 5
            &&& t.player_ui == PlayerUiEntities { health_bar_bg: None, health_bar_fill: None, aim_indicator: None }
            &&& t.enemy_spawn.timer_ms == 0 && t.enemy_spawn.session_elapsed_ms == 0
            &&& t.enemy_spawn.total_spawned == 0
            &&& t.campaign_session == s.campaign_session
            &&& t.wave_director == s.wave_director
            &&& t.progression == s.progression
            &&& t.magnet_level == s.magnet_level
        }),
{
}

/// Leaving the world and retrying a mission clear the same entities, but for
/// the HUD, which only leaving clears; both start score, lives, statistics,
/// ore, and the player UI over alike.
pub proof fn lemma_cleanup_and_retry_agree(s: SessionResources, entities: Seq<WorldEntity>, i: int)
    requires
        distinct_ids(entities),
        0 <= i < entities.len(),
    ensures
        entities[i].kind != EntityKind::Hud ==> (ids_of_kinds(entities, world_cleanup_kinds()).contains(
            entities[i].id,
        ) <==> ids_of_kinds(entities, retry_kinds()).contains(entities[i].id)),
        entities[i].kind == EntityKind::Hud ==> ids_of_kinds(entities, world_cleanup_kinds()).contains(
            entities[i].id,
        ),
        after_world_cleanup(s).score == after_retry(s).score,
        after_world_cleanup(s).lives == after_retry(s).lives,
        after_world_cleanup(s).stats == after_retry(s).stats,
        after_world_cleanup(s).ore == after_retry(s).ore,
        after_world_cleanup(s).player_ui == after_retry(s).player_ui,
{
    lemma_entity_despawned_iff_listed(entities, retry_kinds(), i);
    lemma_entity_despawned_iff_listed(entities, world_cleanup_kinds(), i);
    let k = entities[i].kind;
    let w = world_cleanup_kinds();
    let r = retry_kinds();
    assert(w[10] == EntityKind::Hud);
    if k != EntityKind::Hud {
        if w.contains(k) {
            let j = choose|j: int| 0 <= j < w.len() && w[j] == k;
            assert(r.contains(k)) by {
                if j < 10 {
                    assert(r[j] == k);
                } else {
                    assert(r[j - 1] == k);
                }
            }
        }
        if r.contains(k) {
            let j = choose|j: int| 0 <= j < r.len() && r[j] == k;
            assert(w.contains(k)) by {
                if j < 10 {
                    assert(w[j] == k);
                } else {
                    assert(w[j + 1] == k);
                }
            }
        }
    }
}

} // verus!
