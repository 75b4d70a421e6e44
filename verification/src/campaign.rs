//! Campaign missions, the per-mission wave director, and the progression from
//! one mission to the next.
//!
//! A campaign run plays the missions of a catalog in the order given by each
//! mission's successor. Inside a mission the wave director cycles through a
//! warm-up, an active wave, and a break, until the last wave is cleared.
//! Durations are whole milliseconds.

use vstd::prelude::*;
use crate::enemy::{EnemySpawnConfig, EnemySpawnState};
use crate::menu::types::{SelectedGameMode, SelectedScenario};
use crate::menu::cleanup::{ids_of_kinds, mission_advance_despawn, mission_advance_kinds, WorldEntity};

verus! {

/// Static description of one campaign mission.
#[derive(Clone, Copy, Debug)]
pub struct CampaignMissionDefinition {
    pub mission_id: u32,
    pub map_scenario: SelectedScenario,
    pub wave_count: u32,
    pub reward_ore: u32,
    pub next_mission_id: Option<u32>,
}

/// The missions a campaign is made of.
#[derive(Clone, Debug)]
pub struct CampaignMissionCatalog {
    pub missions: Vec<CampaignMissionDefinition>,
}

/// The first mission in `missions` whose id is `mission_id`.
pub open spec fn mission_lookup(missions: Seq<CampaignMissionDefinition>, mission_id: u32) -> Option<
    CampaignMissionDefinition,
>
    decreases missions.len(),
{
    if missions.len() == 0 {
        None
    } else if missions[0].mission_id == mission_id {
        Some(missions[0])
    } else {
        mission_lookup(missions.drop_first(), mission_id)
    }
}

/// Looking up in a suffix: the head answers when its id matches, else the rest.
proof fn lemma_lookup_suffix(missions: Seq<CampaignMissionDefinition>, i: int, mission_id: u32)
    requires
        0 <= i < missions.len(),
    ensures
        mission_lookup(missions.subrange(i, missions.len() as int), mission_id) == (if missions[i].mission_id
            == mission_id {
            Some(missions[i])
        } else {
            mission_lookup(missions.subrange(i + 1, missions.len() as int), mission_id)
        }),
{
    let s = missions.subrange(i, missions.len() as int);
    assert(s.drop_first() =~= missions.subrange(i + 1, missions.len() as int));
}

impl CampaignMissionCatalog {
    /// The first mission with the given id, if any.
    pub fn mission_by_id(&self, mission_id: u32) -> (found: Option<&CampaignMissionDefinition>)
        ensures
            found is None <==> mission_lookup(self.missions@, mission_id) is None,
            found matches Some(m) ==> mission_lookup(self.missions@, mission_id) == Some(*m),
    {
        let n = self.missions.len();
        let mut i: usize = 0;
        proof {
            assert(self.missions@.subrange(0, n as int) =~= self.missions@);
        }
        while i < n
            invariant
                n == self.missions@.len(),
                i <= n,
                mission_lookup(self.missions@, mission_id) == mission_lookup(
                    self.missions@.subrange(i as int, n as int),
                    mission_id,
                ),
            decreases n - i,
        {
            proof {
                lemma_lookup_suffix(self.missions@, i as int, mission_id);
            }
            if self.missions[i].mission_id == mission_id {
                return Some(&self.missions[i]);
            }
            i = i + 1;
        }
        None
    }

    /// The first mission of the catalog, if any.
    pub fn first_mission(&self) -> (first: Option<&CampaignMissionDefinition>)
        ensures
            first is None <==> self.missions@.len() == 0,
            first matches Some(m) ==> *m == self.missions@[0],
    {
        if self.missions.len() == 0 {
            None
        } else {
            Some(&self.missions[0])
        }
    }
}

/// The built-in three-mission campaign.
pub open spec fn default_missions() -> Seq<CampaignMissionDefinition> {
    seq![
        CampaignMissionDefinition {
            mission_id: 1,
            map_scenario: SelectedScenario::Field,
            wave_count: 3,
            reward_ore: 20,
            next_mission_id: Some(2),
        },
        CampaignMissionDefinition {
            mission_id: 2,
            map_scenario: SelectedScenario::Comets,
            wave_count: 4,
            reward_ore: 35,
            next_mission_id: Some(3),
        },
        CampaignMissionDefinition {
            mission_id: 3,
            map_scenario: SelectedScenario::Orbit,
            wave_count: 5,
            reward_ore: 50,
            next_mission_id: None,
        },
    ]
}

impl Default for CampaignMissionCatalog {
    /// The built-in campaign: Field, then Comets, then Orbit.
    fn default() -> (catalog: Self)
        ensures
            catalog.missions@ == default_missions(),
    {
        let mut missions = Vec::new();
        missions.push(
            CampaignMissionDefinition {
                mission_id: 1,
                map_scenario: SelectedScenario::Field,
                wave_count: 3,
                reward_ore: 20,
                next_mission_id: Some(2),
            },
        );
        missions.push(
            CampaignMissionDefinition {
                mission_id: 2,
                map_scenario: SelectedScenario::Comets,
                wave_count: 4,
                reward_ore: 35,
                next_mission_id: Some(3),
            },
        );
        missions.push(
            CampaignMissionDefinition {
                mission_id: 3,
                map_scenario: SelectedScenario::Orbit,
                wave_count: 5,
                reward_ore: 50,
                next_mission_id: None,
            },
        );
        CampaignMissionCatalog { missions }
    }
}

/// Runtime state of the campaign session.
#[derive(Clone, Copy, Debug)]
pub struct CampaignSession {
    /// Whether the current session is a campaign run.
    pub active: bool,
    /// 1-indexed mission index of the current run.
    pub mission_index: u32,
    /// Scenario of the loaded mission map.
    pub map_scenario: SelectedScenario,
    /// Number of waves of the loaded mission.
    pub wave_count: u32,
    /// Ore granted when the mission is completed.
    pub reward_ore: u32,
    /// The mission that follows, if any.
    pub next_mission_id: Option<u32>,
    /// How many campaign runs were started in this process.
    pub run_counter: u64,
}

impl Default for CampaignSession {
    /// No campaign: every field zero or empty, the field map.
    fn default() -> (s: Self)
        ensures
            s == (CampaignSession {
                active: false,
                mission_index: 0,
                map_scenario: SelectedScenario::Field,
                wave_count: 0,
                reward_ore: 0,
                next_mission_id: None,
                run_counter: 0,
            }),
    {
        CampaignSession {
            active: false,
            mission_index: 0,
            map_scenario: SelectedScenario::Field,
            wave_count: 0,
            reward_ore: 0,
            next_mission_id: None,
            run_counter: 0,
        }
    }
}

/// The mission that a request for `requested` resolves to: the catalog entry
/// with that id (0 counting as 1), else the first mission, else none.
pub open spec fn mission_for_request(missions: Seq<CampaignMissionDefinition>, requested: u32) -> Option<
    CampaignMissionDefinition,
> {
    let id = if requested >= 1 { requested } else { 1 };
    match mission_lookup(missions, id) {
        Some(m) => Some(m),
        None => if missions.len() > 0 { Some(missions[0]) } else { None },
    }
}

/// The session with `mission` loaded; without a mission, a one-wave field map.
pub open spec fn session_with_mission(s: CampaignSession, mission: Option<CampaignMissionDefinition>) -> CampaignSession {
    match mission {
        Some(m) => CampaignSession {
            mission_index: m.mission_id,
            map_scenario: m.map_scenario,
            wave_count: m.wave_count,
            reward_ore: m.reward_ore,
            next_mission_id: m.next_mission_id,
            ..s
        },
        None => CampaignSession {
            mission_index: 1,
            map_scenario: SelectedScenario::Field,
            wave_count: 1,
            reward_ore: 0,
            next_mission_id: None,
            ..s
        },
    }
}

/// Loads the requested mission (or the catalog's first) into the session.
pub fn load_mission_into_session(
    session: &mut CampaignSession,
    catalog: &CampaignMissionCatalog,
    requested_mission: u32,
)
    ensures
        *final(session) == session_with_mission(
            *old(session),
            mission_for_request(catalog.missions@, requested_mission),
        ),
{
    let id: u32 = if requested_mission >= 1 { requested_mission } else { 1 };
    let mission = match catalog.mission_by_id(id) {
        Some(m) => Some(m),
        None => catalog.first_mission(),
    };
    match mission {
        Some(m) => {
            session.mission_index = m.mission_id;
            session.map_scenario = m.map_scenario;
            session.wave_count = m.wave_count;
            session.reward_ore = m.reward_ore;
            session.next_mission_id = m.next_mission_id;
        },
        None => {
            session.mission_index = 1;
            session.map_scenario = SelectedScenario::Field;
            session.wave_count = 1;
            session.reward_ore = 0;
            session.next_mission_id = None;
        },
    }
}

/// The session as it stands when gameplay begins in `mode`.
pub open spec fn bootstrapped_session(
    mode: SelectedGameMode,
    missions: Seq<CampaignMissionDefinition>,
    s: CampaignSession,
) -> CampaignSession {
    match mode {
        SelectedGameMode::Campaign => {
            let requested = if s.mission_index >= 1 { s.mission_index } else { 1 };
            let loaded = session_with_mission(
                CampaignSession { active: true, ..s },
                mission_for_request(missions, requested),
            );
            CampaignSession {
                run_counter: if s.run_counter < u64::MAX { (s.run_counter + 1) as u64 } else { u64::MAX },
                ..loaded
            }
        },
        SelectedGameMode::Practice => CampaignSession {
            active: false,
            mission_index: 0,
            map_scenario: SelectedScenario::Field,
            wave_count: 0,
            reward_ore: 0,
            next_mission_id: None,
            ..s
        },
    }
}

/// Sets up the session when gameplay begins: a campaign run loads its
/// current mission (at least mission 1) and counts one more run; practice
/// clears the campaign fields.
pub fn bootstrap_campaign_session(
    mode: SelectedGameMode,
    catalog: &CampaignMissionCatalog,
    session: &mut CampaignSession,
)
    ensures
        *final(session) == bootstrapped_session(mode, catalog.missions@, *old(session)),
{
    match mode {
        SelectedGameMode::Campaign => {
            session.active = true;
            let requested: u32 = if session.mission_index >= 1 { session.mission_index } else { 1 };
            load_mission_into_session(session, catalog, requested);
            session.run_counter = session.run_counter.saturating_add(1);
        },
        SelectedGameMode::Practice => {
            session.active = false;
            session.mission_index = 0;
            session.map_scenario = SelectedScenario::Field;
            session.wave_count = 0;
            session.reward_ore = 0;
            session.next_mission_id = None;
        },
    }
}

} // verus!

verus! {

/// Phase of the wave loop of a mission.
#[derive(Clone, Copy, Debug, PartialEq, Eq, Structural)]
pub enum CampaignWavePhase {
    Inactive,
    Warmup,
    ActiveWave,
    InterWaveBreak,
    Complete,
}

impl Default for CampaignWavePhase {
    /// No wave loop runs until a campaign mission starts one.
    fn default() -> (p: Self)
        ensures
            p == CampaignWavePhase::Inactive,
    {
        CampaignWavePhase::Inactive
    }
}

/// The wave loop of the current mission.
#[derive(Clone, Copy, Debug)]
pub struct CampaignWaveDirector {
    pub phase: CampaignWavePhase,
    pub current_wave: u32,
    pub total_waves: u32,
    pub phase_timer_ms: u32,
    pub target_spawns_this_wave: u32,
    pub spawned_this_wave: u32,
    pub max_concurrent_enemies: u32,
    pub spawn_cooldown_ms: u32,
}

/// A director with no wave loop.
pub open spec fn idle_director() -> CampaignWaveDirector {
    CampaignWaveDirector {
        phase: CampaignWavePhase::Inactive,
        current_wave: 0,
        total_waves: 0,
        phase_timer_ms: 0,
        target_spawns_this_wave: 0,
        spawned_this_wave: 0,
        max_concurrent_enemies: 0,
        spawn_cooldown_ms: 0,
    }
}

impl Default for CampaignWaveDirector {
    /// A director with no wave loop.
    fn default() -> (d: Self)
        ensures
            d == idle_director(),
    {
        CampaignWaveDirector {
            phase: CampaignWavePhase::Inactive,
            current_wave: 0,
            total_waves: 0,
            phase_timer_ms: 0,
            target_spawns_this_wave: 0,
            spawned_this_wave: 0,
            max_concurrent_enemies: 0,
            spawn_cooldown_ms: 0,
        }
    }
}

/// The wave loop of a running mission keeps its wave number within
/// `1..=total_waves`, and a break only comes before a wave that exists.
pub open spec fn director_wf(d: CampaignWaveDirector) -> bool {
    &&& d.phase != CampaignWavePhase::Inactive ==> 1 <= d.current_wave <= d.total_waves
    &&& d.phase == CampaignWavePhase::InterWaveBreak ==> d.current_wave < d.total_waves
}

/// The 0-indexed number of the current wave.
pub open spec fn wave_index(d: CampaignWaveDirector) -> int {
    if d.current_wave >= 1 { d.current_wave - 1 } else { 0 }
}

/// The director once the current wave has been armed: spawn target two more
/// per wave (at most 20), concurrency one more per wave (capped by the
/// configuration), and the base cooldown shortened by a fifth of itself per
/// wave, but not under the configured floor nor a quarter second.
pub open spec fn armed_wave(d: CampaignWaveDirector, config: EnemySpawnConfig) -> CampaignWaveDirector {
    let wi = wave_index(d);
    let target = 2 + wi * 2;
    let cap = if config.enemy_max_count_cap >= 1 { config.enemy_max_count_cap as int } else { 1 };
    let conc = 1 + wi;
    let sped = config.enemy_spawn_base_cooldown_ms * 5 / (5 + wi);
    let floor = if config.enemy_spawn_cooldown_min_ms >= 250 { config.enemy_spawn_cooldown_min_ms as int } else { 250 };
    CampaignWaveDirector {
        phase: CampaignWavePhase::ActiveWave,
        phase_timer_ms: 0,
        spawned_this_wave: 0,
        target_spawns_this_wave: (if target <= 20 { target } else { 20 }) as u32,
        max_concurrent_enemies: (if conc <= cap { conc } else { cap }) as u32,
        spawn_cooldown_ms: (if sped >= floor { sped } else { floor }) as u32,
        ..d
    }
}

/// Whether arming the current wave stays within `u32`.
pub open spec fn arming_fits(d: CampaignWaveDirector) -> bool {
    2 + wave_index(d) * 2 <= u32::MAX
}

/// Arms the current wave.
pub fn configure_active_wave(director: &mut CampaignWaveDirector, config: &EnemySpawnConfig)
    requires
        arming_fits(*old(director)),
    ensures
        *final(director) == armed_wave(*old(director), *config),
{
    let wave_index: u32 = director.current_wave.saturating_sub(1);
    director.phase = CampaignWavePhase::ActiveWave;
    director.phase_timer_ms = 0;
    director.spawned_this_wave = 0;
    let target: u32 = 2 + wave_index * 2;
    director.target_spawns_this_wave = if target <= 20 { target } else { 20 };
    let cap: u32 = if config.enemy_max_count_cap >= 1 { config.enemy_max_count_cap } else { 1 };
    let conc: u32 = 1 + wave_index;
    director.max_concurrent_enemies = if conc <= cap { conc } else { cap };
    let base: u64 = config.enemy_spawn_base_cooldown_ms as u64;
    let sped: u64 = base * 5 / (5 + wave_index as u64);
    proof {
        vstd::arithmetic::div_mod::lemma_div_is_ordered_by_denominator(base * 5, 5, 5 + wave_index);
        assert(base * 5 / 5 == base);
    }
    let floor: u32 = if config.enemy_spawn_cooldown_min_ms >= 250 { config.enemy_spawn_cooldown_min_ms } else { 250 };
    director.spawn_cooldown_ms = if sped >= floor as u64 { sped as u32 } else { floor };
}

/// Arming wave `n` (counted from 1) starts it with nothing spawned yet, a
/// spawn target of two enemies per wave number up to 20, room for `n` enemies
/// at once up to the configured cap (at least one), and the base cooldown
/// scaled by 5 / (4 + n), never under the configured floor nor 250 ms; the
/// wave numbers are untouched.
pub proof fn lemma_armed_wave_rules(d: CampaignWaveDirector, config: EnemySpawnConfig)
    requires
        d.current_wave >= 1,
    ensures
        ({
            let a = armed_wave(d, config);
            let n = d.current_wave as int;
            let cap = if config.enemy_max_count_cap >= 1 { config.enemy_max_count_cap as int } else { 1 };
            let sped = config.enemy_spawn_base_cooldown_ms as int * 5 / (4 + n);
            let floor = if config.enemy_spawn_cooldown_min_ms >= 250 {
                config.enemy_spawn_cooldown_min_ms as int
            } else {
                250
            };
            &&& a.phase == CampaignWavePhase::ActiveWave
            &&& a.phase_timer_ms == 0
            &&& a.spawned_this_wave == 0
            &&& a.target_spawns_this_wave == (if 2 * n <= 20 { 2 * n } else { 20 })
            &&& a.max_concurrent_enemies == (if n <= cap { n } else { cap })
            &&& a.spawn_cooldown_ms == (if sped >= floor { sped } else { floor })
            &&& a.current_wave == d.current_wave
            &&& a.total_waves == d.total_waves
        }),
{
    let n = d.current_wave as int;
    let base = config.enemy_spawn_base_cooldown_ms as int;
    assert(5 + wave_index(d) == 4 + n);
    vstd::arithmetic::div_mod::lemma_div_is_ordered_by_denominator(base * 5, 5, 4 + n);
    assert(base * 5 / 5 == base);
}

/// Each later wave allows exactly one more enemy at once than the one before
/// it, until the configured cap is reached, and never more than the cap.
pub proof fn lemma_concurrency_grows_by_one(d: CampaignWaveDirector, config: EnemySpawnConfig)
    requires
        1 <= d.current_wave < u32::MAX,
    ensures
        ({
            let next = CampaignWaveDirector { current_wave: (d.current_wave + 1) as u32, ..d };
            let now = armed_wave(d, config).max_concurrent_enemies;
            let later = armed_wave(next, config).max_concurrent_enemies;
            &&& d.current_wave < config.enemy_max_count_cap ==> later == now + 1
            &&& d.current_wave >= config.enemy_max_count_cap ==> later == now
            &&& now >= 1
            &&& config.enemy_max_count_cap >= 1 ==> now <= config.enemy_max_count_cap
        }),
{
    lemma_armed_wave_rules(d, config);
    lemma_armed_wave_rules(CampaignWaveDirector { current_wave: (d.current_wave + 1) as u32, ..d }, config);
}

/// The director as it stands when gameplay begins: a campaign mission with
/// waves starts a two-second warm-up before wave 1; anything else has no loop.
pub open spec fn bootstrapped_director(
    config: EnemySpawnConfig,
    session: CampaignSession,
    d: CampaignWaveDirector,
) -> CampaignWaveDirector {
    if !session.active || session.wave_count == 0 {
        idle_director()
    } else {
        CampaignWaveDirector {
            phase: CampaignWavePhase::Warmup,
            current_wave: 1,
            total_waves: if session.wave_count >= 1 { session.wave_count } else { 1 },
            phase_timer_ms: 2000,
            target_spawns_this_wave: 0,
            spawned_this_wave: 0,
            max_concurrent_enemies: 1,
            spawn_cooldown_ms: config.enemy_spawn_base_cooldown_ms,
        }
    }
}

/// Sets up the wave loop when gameplay begins.
pub fn bootstrap_campaign_wave_director(
    config: &EnemySpawnConfig,
    session: &CampaignSession,
    director: &mut CampaignWaveDirector,
)
    ensures
        *final(director) == bootstrapped_director(*config, *session, *old(director)),
{
    if !session.active || session.wave_count == 0 {
        *director = CampaignWaveDirector::default();
        return;
    }
    director.phase = CampaignWavePhase::Warmup;
    director.current_wave = 1;
    director.total_waves = if session.wave_count >= 1 { session.wave_count } else { 1 };
    director.phase_timer_ms = 2000;
    director.target_spawns_this_wave = 0;
    director.spawned_this_wave = 0;
    director.max_concurrent_enemies = 1;
    director.spawn_cooldown_ms = config.enemy_spawn_base_cooldown_ms;
}

/// One frame of the wave loop, `dt_ms` after the last, with `live_enemies`
/// enemies alive. Nothing moves outside a campaign or before the loop starts
/// or after it completes. The phase timer counts down to zero; a finished
/// warm-up arms its wave; a wave whose spawns are all out and whose enemies
/// are all gone ends the mission when it was the last, else starts a
/// four-second break; a finished break moves to the next wave's 1.5-second
/// warm-up.
pub open spec fn director_step(
    d: CampaignWaveDirector,
    session_active: bool,
    dt_ms: u32,
    config: EnemySpawnConfig,
    live_enemies: u32,
) -> CampaignWaveDirector {
    if !session_active || d.phase == CampaignWavePhase::Inactive || d.phase
        == CampaignWavePhase::Complete {
        d
    } else {
        let t = if d.phase_timer_ms >= dt_ms { (d.phase_timer_ms - dt_ms) as u32 } else { 0 };
        let d1 = CampaignWaveDirector { phase_timer_ms: t, ..d };
        match d.phase {
            CampaignWavePhase::Warmup => if t == 0 { armed_wave(d1, config) } else { d1 },
            CampaignWavePhase::ActiveWave => {
                if d.spawned_this_wave >= d.target_spawns_this_wave && live_enemies == 0 {
                    if d.current_wave >= d.total_waves {
                        CampaignWaveDirector { phase: CampaignWavePhase::Complete, phase_timer_ms: 0, ..d1 }
                    } else {
                        CampaignWaveDirector {
                            phase: CampaignWavePhase::InterWaveBreak,
                            phase_timer_ms: 4000,
                            ..d1
                        }
                    }
                } else {
                    d1
                }
            },
            _ => if t == 0 {
                CampaignWaveDirector {
                    current_wave: (d.current_wave + 1) as u32,
                    phase: CampaignWavePhase::Warmup,
                    phase_timer_ms: 1500,
                    ..d1
                }
            } else {
                d1
            },
        }
    }
}

/// The wave loop's timings: gameplay in a campaign with waves begins with a
/// two-second warm-up before wave 1 (anything else has no loop); in a running
/// campaign, a warm-up that runs out arms its wave; a wave whose spawns are
/// all out with no enemy left completes the mission when it is the last wave
/// and otherwise starts a four-second break; a break that runs out starts the
/// next wave's 1.5-second warm-up; while the phase timer has not run out, only
/// the timer moves, by the frame time.
pub proof fn lemma_wave_loop_timings(
    d: CampaignWaveDirector,
    dt_ms: u32,
    config: EnemySpawnConfig,
    live_enemies: u32,
    session: CampaignSession,
)
    ensures
        session.active && session.wave_count >= 1 ==> {
            let b = bootstrapped_director(config, session, d);
            &&& b.phase == CampaignWavePhase::Warmup && b.current_wave == 1
            &&& b.total_waves == session.wave_count && b.phase_timer_ms == 2000
        },
        !(session.active && session.wave_count >= 1) ==> bootstrapped_director(config, session, d).phase
            == CampaignWavePhase::Inactive,
        ({
            let n = director_step(d, true, dt_ms, config, live_enemies);
            &&& d.phase == CampaignWavePhase::Warmup && d.phase_timer_ms <= dt_ms ==> n.phase
                == CampaignWavePhase::ActiveWave && n.current_wave == d.current_wave
            &&& d.phase == CampaignWavePhase::ActiveWave && d.spawned_this_wave >= d.target_spawns_this_wave
                && live_enemies == 0 && d.current_wave >= d.total_waves ==> n.phase == CampaignWavePhase::Complete
            &&& d.phase == CampaignWavePhase::ActiveWave && d.spawned_this_wave >= d.target_spawns_this_wave
                && live_enemies == 0 && d.current_wave < d.total_waves ==> n.phase
                == CampaignWavePhase::InterWaveBreak && n.phase_timer_ms == 4000 && n.current_wave
                == d.current_wave
            &&& d.phase == CampaignWavePhase::ActiveWave && !(d.spawned_this_wave >= d.target_spawns_this_wave
                && live_enemies == 0) ==> n.phase == CampaignWavePhase::ActiveWave && n.current_wave
                == d.current_wave
            &&& d.phase == CampaignWavePhase::InterWaveBreak && d.phase_timer_ms <= dt_ms && d.current_wave
                < u32::MAX ==> n.phase
                == CampaignWavePhase::Warmup && n.phase_timer_ms == 1500 && n.current_wave == d.current_wave + 1
            &&& (d.phase == CampaignWavePhase::Warmup || d.phase == CampaignWavePhase::InterWaveBreak)
                && d.phase_timer_ms > dt_ms ==> n == CampaignWaveDirector {
                phase_timer_ms: (d.phase_timer_ms - dt_ms) as u32,
                ..d
            }
        }),
{
}

/// Whether one step of the wave loop stays within `u32`.
pub open spec fn step_fits(d: CampaignWaveDirector) -> bool {
    &&& d.phase == CampaignWavePhase::Warmup ==> arming_fits(d)
    &&& d.phase == CampaignWavePhase::InterWaveBreak ==> d.current_wave < u32::MAX
}

/// Advances the wave loop of a running campaign mission by one frame.
pub fn campaign_wave_director_system(
    dt_ms: u32,
    session: &CampaignSession,
    config: &EnemySpawnConfig,
    live_enemies: u32,
    director: &mut CampaignWaveDirector,
)
    requires
        step_fits(*old(director)),
    ensures
        *final(director) == director_step(*old(director), session.active, dt_ms, *config, live_enemies),
{
    if !session.active {
        return;
    }
    if director.phase == CampaignWavePhase::Inactive || director.phase == CampaignWavePhase::Complete {
        return;
    }
    director.phase_timer_ms = director.phase_timer_ms.saturating_sub(dt_ms);
    match director.phase {
        CampaignWavePhase::Warmup => {
            if director.phase_timer_ms == 0 {
                configure_active_wave(director, config);
            }
        },
        CampaignWavePhase::ActiveWave => {
            if director.spawned_this_wave >= director.target_spawns_this_wave && live_enemies == 0 {
                if director.current_wave >= director.total_waves {
                    director.phase = CampaignWavePhase::Complete;
                    director.phase_timer_ms = 0;
                } else {
                    director.phase = CampaignWavePhase::InterWaveBreak;
                    director.phase_timer_ms = 4000;
                }
            }
        },
        CampaignWavePhase::InterWaveBreak => {
            if director.phase_timer_ms == 0 {
                director.current_wave = director.current_wave + 1;
                director.phase = CampaignWavePhase::Warmup;
                director.phase_timer_ms = 1500;
            }
        },
        _ => {},
    }
}

} // verus!

verus! {

/// Control state of the move from a completed mission to the next one.
#[derive(Clone, Copy, Debug)]
pub struct CampaignProgressionState {
    pub pending_advance: bool,
    pub advance_timer_ms: u32,
    pub mission_failed: bool,
}

impl Default for CampaignProgressionState {
    /// Nothing pending, no failure.
    fn default() -> (p: Self)
        ensures
            p == (CampaignProgressionState {
                pending_advance: false,
                advance_timer_ms: 0,
                mission_failed: false,
            }),
    {
        CampaignProgressionState { pending_advance: false, advance_timer_ms: 0, mission_failed: false }
    }
}

/// Clears the progression control when gameplay begins.
pub fn bootstrap_campaign_progression_state(
    session: &CampaignSession,
    progression: &mut CampaignProgressionState,
)
    ensures
        *final(progression) == (CampaignProgressionState {
            pending_advance: false,
            advance_timer_ms: 0,
            mission_failed: false,
        }),
{
    progression.pending_advance = false;
    progression.advance_timer_ms = 0;
    progression.mission_failed = false;
    if !session.active {
        progression.mission_failed = false;
    }
}

/// The wave loop of a freshly loaded mission: a 1.5-second warm-up before
/// wave 1 of `wave_count` (at least one).
pub open spec fn fresh_mission_director(config: EnemySpawnConfig, wave_count: u32) -> CampaignWaveDirector {
    CampaignWaveDirector {
        phase: CampaignWavePhase::Warmup,
        current_wave: 1,
        total_waves: if wave_count >= 1 { wave_count } else { 1 },
        phase_timer_ms: 1500,
        target_spawns_this_wave: 0,
        spawned_this_wave: 0,
        max_concurrent_enemies: 1,
        spawn_cooldown_ms: config.enemy_spawn_base_cooldown_ms,
    }
}

/// Whether the progression step loads the next mission now: a running
/// campaign whose waves are complete, an advance already pending whose delay
/// runs out within `dt_ms`, and a successor mission named.
pub open spec fn advances_now(
    session: CampaignSession,
    progression: CampaignProgressionState,
    wave: CampaignWaveDirector,
    dt_ms: u32,
) -> bool {
    &&& session.active
    &&& wave.phase == CampaignWavePhase::Complete
    &&& progression.pending_advance
    &&& progression.advance_timer_ms <= dt_ms
    &&& session.next_mission_id is Some
}

/// Moves a campaign on once its waves are complete. The first frame after
/// completion starts a one-second delay; when the delay has run out, the
/// successor mission is loaded, the wave loop restarts at its warm-up, and the
/// enemy spawn clock is reset. Returns the scenario whose world must then be
/// built afresh, with the entities of the finished mission to despawn, or
/// `None` and no entities when no mission was loaded this frame. Without a
/// successor the pending advance is dropped and nothing else changes.
pub fn campaign_progression_system(
    dt_ms: u32,
    config: &EnemySpawnConfig,
    catalog: &CampaignMissionCatalog,
    session: &mut CampaignSession,
    progression: &mut CampaignProgressionState,
    wave: &mut CampaignWaveDirector,
    enemy_spawn: &mut EnemySpawnState,
    entities: &Vec<WorldEntity>,
) -> (result: (Option<SelectedScenario>, Vec<u64>))
    ensures
        result.0 is Some ==> result.1@ == ids_of_kinds(entities@, mission_advance_kinds()),
        result.0 is None ==> result.1@.len() == 0,
        !old(session).active || old(wave).phase != CampaignWavePhase::Complete ==> {
            &&& result.0 is None
            &&& *final(session) == *old(session)
            &&& *final(progression) == *old(progression)
            &&& *final(wave) == *old(wave)
            &&& *final(enemy_spawn) == *old(enemy_spawn)
        },
        old(session).active && old(wave).phase == CampaignWavePhase::Complete
            && !old(progression).pending_advance ==> {
            &&& result.0 is None
            &&& *final(progression) == (CampaignProgressionState {
                pending_advance: true,
                advance_timer_ms: 1000,
                ..*old(progression)
            })
            &&& *final(session) == *old(session)
            &&& *final(wave) == *old(wave)
            &&& *final(enemy_spawn) == *old(enemy_spawn)
        },
        old(session).active && old(wave).phase == CampaignWavePhase::Complete
            && old(progression).pending_advance && old(progression).advance_timer_ms > dt_ms ==> {
            &&& result.0 is None
            &&& *final(progression) == (CampaignProgressionState {
                advance_timer_ms: (old(progression).advance_timer_ms - dt_ms) as u32,
                ..*old(progression)
            })
            &&& *final(session) == *old(session)
            &&& *final(wave) == *old(wave)
            &&& *final(enemy_spawn) == *old(enemy_spawn)
        },
        old(session).active && old(wave).phase == CampaignWavePhase::Complete
            && old(progression).pending_advance && old(progression).advance_timer_ms <= dt_ms
            && old(session).next_mission_id is None ==> {
            &&& result.0 is None
            &&& *final(progression) == (CampaignProgressionState {
                pending_advance: false,
                advance_timer_ms: 0,
                ..*old(progression)
            })
            &&& *final(session) == *old(session)
            &&& *final(wave) == *old(wave)
            &&& *final(enemy_spawn) == *old(enemy_spawn)
        },
        advances_now(*old(session), *old(progression), *old(wave), dt_ms) ==> {
            let loaded = session_with_mission(
                *old(session),
                mission_for_request(catalog.missions@, old(session).next_mission_id->0),
            );
            &&& *final(session) == loaded
            &&& result.0 == Some(loaded.map_scenario)
            &&& *final(wave) == fresh_mission_director(*config, loaded.wave_count)
            &&& *final(progression) == (CampaignProgressionState {
                pending_advance: false,
                advance_timer_ms: 0,
                ..*old(progression)
            })
            &&& *final(enemy_spawn) == (EnemySpawnState {
                timer_ms: 0,
                session_elapsed_ms: 0,
                ..*old(enemy_spawn)
            })
        },
{
    if !session.active {
        return (None, Vec::new());
    }
    if wave.phase != CampaignWavePhase::Complete {
        return (None, Vec::new());
    }
    if !progression.pending_advance {
        progression.pending_advance = true;
        progression.advance_timer_ms = 1000;
        return (None, Vec::new());
    }
    progression.advance_timer_ms = progression.advance_timer_ms.saturating_sub(dt_ms);
    if progression.advance_timer_ms > 0 {
        return (None, Vec::new());
    }
    let next_mission = match session.next_mission_id {
        Some(n) => n,
        None => {
            progression.pending_advance = false;
            return (None, Vec::new());
        },
    };
    load_mission_into_session(session, catalog, next_mission);

    wave.phase = CampaignWavePhase::Warmup;
    wave.current_wave = 1;
    wave.total_waves = if session.wave_count >= 1 { session.wave_count } else { 1 };
    wave.phase_timer_ms = 1500;
    wave.target_spawns_this_wave = 0;
    wave.spawned_this_wave = 0;
    wave.max_concurrent_enemies = 1;
    wave.spawn_cooldown_ms = config.enemy_spawn_base_cooldown_ms;

    enemy_spawn.timer_ms = 0;
    enemy_spawn.session_elapsed_ms = 0;

    progression.pending_advance = false;
    (Some(session.map_scenario), mission_advance_despawn(entities))
}

/// Marks a campaign run as failed when the game is over: the advance is
/// dropped and the wave loop stops.
pub fn mark_campaign_failure_on_game_over(
    session: &CampaignSession,
    progression: &mut CampaignProgressionState,
    wave: &mut CampaignWaveDirector,
)
    ensures
        !session.active ==> *final(progression) == *old(progression) && *final(wave) == *old(wave),
        session.active ==> *final(progression) == (CampaignProgressionState {
            mission_failed: true,
            pending_advance: false,
            advance_timer_ms: 0,
        }) && *final(wave) == (CampaignWaveDirector {
            phase: CampaignWavePhase::Inactive,
            ..*old(wave)
        }),
{
    if !session.active {
        return;
    }
    progression.mission_failed = true;
    progression.pending_advance = false;
    progression.advance_timer_ms = 0;
    wave.phase = CampaignWavePhase::Inactive;
}

} // verus!

verus! {

/// Every step of the wave loop keeps the wave number within the mission's
/// waves.
pub proof fn lemma_director_step_keeps_bounds(
    d: CampaignWaveDirector,
    session_active: bool,
    dt_ms: u32,
    config: EnemySpawnConfig,
    live_enemies: u32,
)
    requires
        director_wf(d),
    ensures
        director_wf(director_step(d, session_active, dt_ms, config, live_enemies)),
{
}

/// A wave loop set up at the start of gameplay is well formed, and so is one
/// set up for a freshly loaded mission.
pub proof fn lemma_fresh_directors_wf(config: EnemySpawnConfig, session: CampaignSession, d: CampaignWaveDirector)
    ensures
        director_wf(bootstrapped_director(config, session, d)),
        director_wf(fresh_mission_director(config, session.wave_count)),
{
}

/// A well-formed loop of fewer than 2^31 waves can always take its next
/// step within `u32`.
pub proof fn lemma_wf_step_fits(d: CampaignWaveDirector)
    requires
        director_wf(d),
        d.total_waves < 0x8000_0000,
    ensures
        step_fits(d),
{
}

/// A completed mission stays completed, and a loop that never started stays
/// idle, whatever time passes and however many enemies live.
pub proof fn lemma_terminal_phases_are_stable(
    d: CampaignWaveDirector,
    session_active: bool,
    dt_ms: u32,
    config: EnemySpawnConfig,
    live_enemies: u32,
)
    requires
        d.phase == CampaignWavePhase::Complete || d.phase == CampaignWavePhase::Inactive,
    ensures
        director_step(d, session_active, dt_ms, config, live_enemies) == d,
{
}

/// Outside a campaign the wave loop never moves.
pub proof fn lemma_inactive_session_freezes_director(
    d: CampaignWaveDirector,
    dt_ms: u32,
    config: EnemySpawnConfig,
    live_enemies: u32,
)
    ensures
        director_step(d, false, dt_ms, config, live_enemies) == d,
{
}

/// A mission completes only from an active last wave whose spawns are all out
/// and whose enemies are all gone.
pub proof fn lemma_complete_only_after_last_wave_cleared(
    d: CampaignWaveDirector,
    session_active: bool,
    dt_ms: u32,
    config: EnemySpawnConfig,
    live_enemies: u32,
)
    requires
        d.phase != CampaignWavePhase::Complete,
        director_step(d, session_active, dt_ms, config, live_enemies).phase == CampaignWavePhase::Complete,
    ensures
        session_active,
        d.phase == CampaignWavePhase::ActiveWave,
        d.current_wave >= d.total_waves,
        d.spawned_this_wave >= d.target_spawns_this_wave,
        live_enemies == 0,
{
}

/// The wave number moves up by at most one per step, and only when a break
/// ends.
pub proof fn lemma_wave_number_advances_by_one(
    d: CampaignWaveDirector,
    session_active: bool,
    dt_ms: u32,
    config: EnemySpawnConfig,
    live_enemies: u32,
)
    requires
        step_fits(d),
    ensures
        ({
            let next = director_step(d, session_active, dt_ms, config, live_enemies);
            &&& next.current_wave == d.current_wave || next.current_wave == d.current_wave + 1
            &&& next.current_wave == d.current_wave + 1 ==> d.phase == CampaignWavePhase::InterWaveBreak
                && d.phase_timer_ms <= dt_ms && next.phase == CampaignWavePhase::Warmup
        }),
{
}

/// In the built-in campaign mission 1 exists, and every successor named by a
/// mission is found in the catalog under that id: the run goes from mission 1
/// to 2 to 3 and ends there.
pub proof fn lemma_default_catalog_chain()
    ensures
        mission_lookup(default_missions(), 1) == Some(default_missions()[0]),
        mission_lookup(default_missions(), 2) == Some(default_missions()[1]),
        mission_lookup(default_missions(), 3) == Some(default_missions()[2]),
        default_missions()[0].next_mission_id == Some(2u32),
        default_missions()[1].next_mission_id == Some(3u32),
        default_missions()[2].next_mission_id is None,
        forall|i: int|
            0 <= i < 3 ==> #[trigger] default_missions()[i].wave_count >= 1,
{
    reveal_with_fuel(mission_lookup, 4);
}

/// A request for a mission that the catalog holds loads exactly that mission.
pub proof fn lemma_request_loads_catalog_mission(
    missions: Seq<CampaignMissionDefinition>,
    s: CampaignSession,
    requested: u32,
)
    requires
        requested >= 1,
        mission_lookup(missions, requested) is Some,
    ensures
        ({
            let m = mission_lookup(missions, requested)->0;
            let loaded = session_with_mission(s, mission_for_request(missions, requested));
            &&& loaded.mission_index == m.mission_id
            &&& loaded.map_scenario == m.map_scenario
            &&& loaded.wave_count == m.wave_count
            &&& loaded.reward_ore == m.reward_ore
            &&& loaded.next_mission_id == m.next_mission_id
            &&& loaded.active == s.active
            &&& loaded.run_counter == s.run_counter
        }),
{
}

/// What the lookup finds carries the id that was looked up.
pub proof fn lemma_lookup_finds_id(missions: Seq<CampaignMissionDefinition>, mission_id: u32)
    ensures
        mission_lookup(missions, mission_id) matches Some(m) ==> m.mission_id == mission_id,
    decreases missions.len(),
{
    if missions.len() > 0 && missions[0].mission_id != mission_id {
        lemma_lookup_finds_id(missions.drop_first(), mission_id);
    }
}

} // verus!

verus! {

/// Starting gameplay never lowers the count of campaign runs, and a
/// campaign start raises it by one until it saturates.
pub proof fn lemma_run_counter_monotone(
    mode: SelectedGameMode,
    missions: Seq<CampaignMissionDefinition>,
    s: CampaignSession,
)
    ensures
        bootstrapped_session(mode, missions, s).run_counter >= s.run_counter,
        mode == SelectedGameMode::Campaign && s.run_counter < u64::MAX ==> bootstrapped_session(
            mode,
            missions,
            s,
        ).run_counter == s.run_counter + 1,
        bootstrapped_session(mode, missions, s).active == (mode == SelectedGameMode::Campaign),
{
}

/// When a completed mission advances to a successor that the catalog holds,
/// the session then plays that successor.
pub proof fn lemma_advance_moves_to_successor(
    missions: Seq<CampaignMissionDefinition>,
    s: CampaignSession,
    next: u32,
)
    requires
        s.next_mission_id == Some(next),
        next >= 1,
        mission_lookup(missions, next) is Some,
    ensures
        session_with_mission(s, mission_for_request(missions, next)).mission_index == next,
        session_with_mission(s, mission_for_request(missions, next)).next_mission_id == mission_lookup(
            missions,
            next,
        )->0.next_mission_id,
{
    lemma_lookup_finds_id(missions, next);
}

} // verus!
