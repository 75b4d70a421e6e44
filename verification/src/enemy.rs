//! Enemy pacing: spawn stages, spawn caps, spawn cooldowns, enemy tiers, and
//! the staggered first-shot timer of a freshly spawned enemy.
//!
//! Durations are whole milliseconds.

use vstd::prelude::*;

verus! {

/// No more than this many enemies are alive at once, whatever the stage.
pub const ENEMY_HARD_CAP: u32 = 1;

/// Enemy tiers never exceed this level.
pub const ENEMY_TIER_CAP: u32 = 4;

/// The tunable pacing parameters that the spawn profile reads.
#[derive(Clone, Copy, Debug)]
pub struct EnemySpawnConfig {
    /// Play time that makes up one stage.
    pub enemy_stage_time_ms: u64,
    /// Score that makes up one stage.
    pub enemy_stage_score_points: u32,
    pub enemy_max_count_base: u32,
    pub enemy_max_count_per_stage: u32,
    pub enemy_max_count_cap: u32,
    pub enemy_spawn_base_cooldown_ms: u32,
    pub enemy_spawn_cooldown_per_stage_ms: u32,
    pub enemy_spawn_cooldown_min_ms: u32,
}

/// Enemy spawning clock: time until the next spawn attempt (negative when
/// overdue), time since the session began, and how many spawn slots were used.
#[derive(Clone, Copy, Debug)]
pub struct EnemySpawnState {
    pub timer_ms: i64,
    pub session_elapsed_ms: u64,
    pub total_spawned: u64,
}

impl EnemySpawnState {
    /// A fresh clock: no time elapsed, nothing spawned.
    pub fn new() -> (s: EnemySpawnState)
        ensures
            s.timer_ms == 0,
            s.session_elapsed_ms == 0,
            s.total_spawned == 0,
    {
        EnemySpawnState { timer_ms: 0, session_elapsed_ms: 0, total_spawned: 0 }
    }
}

/// Advances the session clock by one frame.
pub fn enemy_session_clock_system(state: &mut EnemySpawnState, dt_ms: u64)
    requires
        old(state).session_elapsed_ms + dt_ms <= u64::MAX,
    ensures
        *final(state) == (EnemySpawnState {
            session_elapsed_ms: (old(state).session_elapsed_ms + dt_ms) as u64,
            ..*old(state)
        }),
{
    state.session_elapsed_ms = state.session_elapsed_ms + dt_ms;
}

pub open spec fn max_u64(a: u64, b: u64) -> u64 {
    if a >= b { a } else { b }
}

pub open spec fn max_u32(a: u32, b: u32) -> u32 {
    if a >= b { a } else { b }
}

pub open spec fn min_int(a: int, b: int) -> int {
    if a <= b { a } else { b }
}

/// Stages earned by play time: whole stage lengths elapsed, a stage lasting
/// at least one second, saturating at the top of `u32`.
pub open spec fn time_stage(config: EnemySpawnConfig, elapsed_ms: u64) -> int {
    min_int(elapsed_ms as int / max_u64(config.enemy_stage_time_ms, 1000) as int, u32::MAX as int)
}

/// Stages earned by score: whole stage scores reached, a stage being at
/// least one point.
pub open spec fn score_stage(config: EnemySpawnConfig, score_points: u32) -> int {
    score_points as int / max_u32(config.enemy_stage_score_points, 1) as int
}

/// The difficulty stage: time stages plus score stages.
pub open spec fn spawn_stage(config: EnemySpawnConfig, score_points: u32, elapsed_ms: u64) -> int {
    time_stage(config, elapsed_ms) + score_stage(config, score_points)
}

/// How many enemies may be alive at `stage`: the base plus the per-stage
/// growth, capped by the configured cap (at least one) and by the hard cap,
/// and never below one.
pub open spec fn spawn_max_count(config: EnemySpawnConfig, stage: int) -> int {
    let grown = config.enemy_max_count_base + stage * config.enemy_max_count_per_stage;
    let capped = min_int(min_int(grown, max_u32(config.enemy_max_count_cap, 1) as int), ENEMY_HARD_CAP as int);
    if capped >= 1 { capped } else { 1 }
}

/// The cooldown between spawns at `stage`: the base shortened by the
/// per-stage step, but never under the configured floor or half a second.
pub open spec fn spawn_cooldown_ms(config: EnemySpawnConfig, stage: int) -> int {
    let shortened = config.enemy_spawn_base_cooldown_ms - stage * config.enemy_spawn_cooldown_per_stage_ms;
    let floor = max_u32(config.enemy_spawn_cooldown_min_ms, 500) as int;
    if shortened >= floor { shortened } else { floor }
}

/// Whether the stage arithmetic of the profile fits in `u32`.
pub open spec fn profile_fits(config: EnemySpawnConfig, score_points: u32, elapsed_ms: u64) -> bool {
    let stage = spawn_stage(config, score_points, elapsed_ms);
    &&& stage <= u32::MAX
    &&& config.enemy_max_count_base + stage * config.enemy_max_count_per_stage <= u32::MAX
}

/// The enemy cap and the spawn cooldown for the current score and play time.
pub fn enemy_spawn_profile(config: &EnemySpawnConfig, score_points: u32, elapsed_ms: u64) -> (profile: (u32, u32))
    requires
        profile_fits(*config, score_points, elapsed_ms),
    ensures
        profile.0 == spawn_max_count(*config, spawn_stage(*config, score_points, elapsed_ms)),
        profile.1 == spawn_cooldown_ms(*config, spawn_stage(*config, score_points, elapsed_ms)),
{
    let stage_len: u64 = if config.enemy_stage_time_ms >= 1000 { config.enemy_stage_time_ms } else { 1000 };
    let time_stages_u64: u64 = elapsed_ms / stage_len;
    let time_stages: u32 = if time_stages_u64 > 0xFFFF_FFFFu64 { 0xFFFF_FFFFu32 } else { time_stages_u64 as u32 };
    let stage_score: u32 = if config.enemy_stage_score_points >= 1 { config.enemy_stage_score_points } else { 1 };
    let score_stages: u32 = score_points / stage_score;
    let stage: u32 = time_stages + score_stages;

    let cap: u32 = if config.enemy_max_count_cap >= 1 { config.enemy_max_count_cap } else { 1 };
    let grown: u32 = config.enemy_max_count_base + stage * config.enemy_max_count_per_stage;
    let mut max_count: u32 = if grown <= cap { grown } else { cap };
    if max_count > ENEMY_HARD_CAP {
        max_count = ENEMY_HARD_CAP;
    }
    if max_count < 1 {
        max_count = 1;
    }

    let floor: u32 = if config.enemy_spawn_cooldown_min_ms >= 500 { config.enemy_spawn_cooldown_min_ms } else { 500 };
    proof {
        let per = config.enemy_spawn_cooldown_per_stage_ms;
        assert(stage * per <= 0xFFFF_FFFF * 0xFFFF_FFFF) by (nonlinear_arith)
            requires
                stage <= 0xFFFF_FFFF,
                per <= 0xFFFF_FFFF,
        ;
    }
    let reduction: u64 = stage as u64 * config.enemy_spawn_cooldown_per_stage_ms as u64;
    let base: u64 = config.enemy_spawn_base_cooldown_ms as u64;
    let cooldown: u32 = if reduction < base && base - reduction >= floor as u64 {
        (base - reduction) as u32
    } else {
        floor
    };
    (max_count, cooldown)
}

/// Tier of an enemy spawned at `stage`: one tier per two stages, from 1 up to
/// the tier cap.
pub open spec fn tier_for_stage(stage: u32) -> u32 {
    let t = 1 + stage / 2;
    if t <= ENEMY_TIER_CAP { t as u32 } else { ENEMY_TIER_CAP }
}

/// Tier of an enemy spawned at `stage`.
pub fn enemy_tier_for_stage(stage: u32) -> (tier: u32)
    ensures
        tier == tier_for_stage(stage),
{
    let t: u32 = 1 + stage / 2;
    if t <= ENEMY_TIER_CAP { t } else { ENEMY_TIER_CAP }
}

/// The pseudo-random phase, in ten-thousandths, that staggers the first shot
/// of the enemy with this spawn index: a linear congruential step modulo 2^64,
/// reduced modulo 10 000.
pub open spec fn fire_phase(spawn_index: u64) -> u64 {
    (((spawn_index * 1_103_515_245 + 12_345) as int) % 0x1_0000_0000_0000_0000int % 10_000) as u64
}

/// The first-shot delay: between 40% and 100% of the base cooldown, placed by
/// the phase (`base * (0.4 + 0.6 * phase / 10 000)`, rounded down to whole
/// milliseconds).
pub open spec fn fire_timer_ms(spawn_index: u64, base_cooldown_ms: u32) -> int {
    base_cooldown_ms * (40_000 + 6 * fire_phase(spawn_index)) / 100_000
}

/// The phase of the first-shot stagger for this spawn index.
pub fn fire_timer_phase(spawn_index: u64) -> (phase: u64)
    ensures
        phase == fire_phase(spawn_index),
        phase < 10_000,
{
    let stepped = spawn_index.wrapping_mul(1_103_515_245).wrapping_add(12_345);
    proof {
        let m = 0x1_0000_0000_0000_0000int;
        let p = spawn_index * 1_103_515_245int;
        assert(spawn_index.wrapping_mul(1_103_515_245) == (p % m) as u64);
        assert(0 <= p);
        lemma_mod_add_small(p, 12_345, m);
    }
    stepped % 10_000
}

proof fn lemma_mod_add_small(p: int, c: int, m: int) by (nonlinear_arith)
    requires
        0 <= p,
        0 <= c < m,
        m > 0,
    ensures
        (if (p % m) + c > m - 1 { (p % m) + c - m } else { (p % m) + c }) == (p + c) % m,
{
    let q = p / m;
    let r = p % m;
    assert(p == q * m + r);
    assert(0 <= r < m);
    if r + c > m - 1 {
        assert(p + c == (q + 1) * m + (r + c - m));
    } else {
        assert(p + c == q * m + (r + c));
    }
}

/// The delay before the first shot of the enemy with this spawn index.
pub fn initial_enemy_fire_timer(spawn_index: u64, base_cooldown_ms: u32) -> (timer_ms: u32)
    ensures
        timer_ms == fire_timer_ms(spawn_index, base_cooldown_ms),
        base_cooldown_ms * 4 / 10 <= timer_ms <= base_cooldown_ms,
{
    let phase = fire_timer_phase(spawn_index);
    proof {
        assert(base_cooldown_ms * (40_000 + 6 * phase) <= base_cooldown_ms * 100_000) by (nonlinear_arith)
            requires
                phase < 10_000,
        ;
        assert(base_cooldown_ms * 40_000 <= base_cooldown_ms * (40_000 + 6 * phase)) by (nonlinear_arith);
        assert(base_cooldown_ms * 100_000 <= 0xFFFF_FFFF * 100_000) by (nonlinear_arith);
    }
    let scaled: u64 = base_cooldown_ms as u64 * (40_000 + 6 * phase);
    (scaled / 100_000) as u32
}

} // verus!

verus! {

/// The spawn profile's rules in numbers: the stage is the whole stage
/// lengths played (a stage lasting at least 1000 ms) plus the whole stage
/// scores reached (at least one point each); with a hard cap of one, at most
/// one enemy lives at a time at any stage; the cooldown is the base minus the
/// per-stage step for each stage, but at least the configured floor and at
/// least 500 ms; the tier is 1 plus half the stage, at most 4.
pub proof fn lemma_spawn_profile_rules(config: EnemySpawnConfig, score_points: u32, elapsed_ms: u64, stage: int)
    requires
        stage >= 0,
    ensures
        ({
            let len = if config.enemy_stage_time_ms >= 1000 { config.enemy_stage_time_ms as int } else { 1000 };
            let pts = if config.enemy_stage_score_points >= 1 { config.enemy_stage_score_points as int } else { 1 };
            let by_time = elapsed_ms as int / len;
            spawn_stage(config, score_points, elapsed_ms) == (if by_time <= u32::MAX { by_time } else {
                u32::MAX as int
            }) + score_points as int / pts
        }),
        spawn_max_count(config, stage) == 1,
        ({
            let shortened = config.enemy_spawn_base_cooldown_ms - stage * config.enemy_spawn_cooldown_per_stage_ms;
            let floor = if config.enemy_spawn_cooldown_min_ms >= 500 {
                config.enemy_spawn_cooldown_min_ms as int
            } else {
                500
            };
            spawn_cooldown_ms(config, stage) == (if shortened >= floor { shortened } else { floor })
        }),
        forall|st: u32| #[trigger] tier_for_stage(st) == (if 1 + st / 2 <= 4 { 1 + st / 2 } else { 4 }),
{
}

/// A fresh enemy's first shot comes no sooner than two fifths of the base
/// cooldown and no later than the base cooldown.
pub proof fn lemma_first_shot_window(spawn_index: u64, base_cooldown_ms: u32)
    ensures
        base_cooldown_ms as int * 2 / 5 <= fire_timer_ms(spawn_index, base_cooldown_ms) <= base_cooldown_ms,
{
    let p = fire_phase(spawn_index) as int;
    let b = base_cooldown_ms as int;
    assert(0 <= p < 10_000);
    assert(b * 40_000 <= b * (40_000 + 6 * p) <= b * 100_000) by (nonlinear_arith)
        requires
            0 <= p < 10_000,
            b >= 0,
    ;
    assert(b * 40_000 / 100_000 == b * 2 / 5) by (nonlinear_arith)
        requires
            b >= 0,
    ;
    vstd::arithmetic::div_mod::lemma_div_is_ordered(b * 40_000, b * (40_000 + 6 * p), 100_000);
    vstd::arithmetic::div_mod::lemma_div_is_ordered(b * (40_000 + 6 * p), b * 100_000, 100_000);
    assert(b * 100_000 / 100_000 == b) by (nonlinear_arith)
        requires
            b >= 0,
    ;
}

/// A later stage never lowers the enemy cap nor lengthens the spawn cooldown.
pub proof fn lemma_spawn_profile_monotone(config: EnemySpawnConfig, early: int, late: int)
    requires
        0 <= early <= late,
    ensures
        spawn_max_count(config, early) <= spawn_max_count(config, late),
        spawn_cooldown_ms(config, late) <= spawn_cooldown_ms(config, early),
{
    assert(early * config.enemy_max_count_per_stage <= late * config.enemy_max_count_per_stage)
        by (nonlinear_arith)
        requires
            early <= late,
            0 <= config.enemy_max_count_per_stage,
    ;
    assert(early * config.enemy_spawn_cooldown_per_stage_ms <= late * config.enemy_spawn_cooldown_per_stage_ms)
        by (nonlinear_arith)
        requires
            early <= late,
            0 <= config.enemy_spawn_cooldown_per_stage_ms,
    ;
}

/// The enemy cap is always at least one and never above the hard cap, and the
/// cooldown is never under half a second nor under the configured floor.
pub proof fn lemma_spawn_profile_bounds(config: EnemySpawnConfig, stage: int)
    ensures
        1 <= spawn_max_count(config, stage) <= ENEMY_HARD_CAP,
        spawn_cooldown_ms(config, stage) >= 500,
        spawn_cooldown_ms(config, stage) >= config.enemy_spawn_cooldown_min_ms,
{
}

/// More score or more play time never lowers the stage.
pub proof fn lemma_spawn_stage_monotone(
    config: EnemySpawnConfig,
    score_a: u32,
    score_b: u32,
    elapsed_a: u64,
    elapsed_b: u64,
)
    requires
        score_a <= score_b,
        elapsed_a <= elapsed_b,
    ensures
        spawn_stage(config, score_a, elapsed_a) <= spawn_stage(config, score_b, elapsed_b),
{
    let d = max_u64(config.enemy_stage_time_ms, 1000) as int;
    let e = max_u32(config.enemy_stage_score_points, 1) as int;
    vstd::arithmetic::div_mod::lemma_div_is_ordered(elapsed_a as int, elapsed_b as int, d);
    vstd::arithmetic::div_mod::lemma_div_is_ordered(score_a as int, score_b as int, e);
}

/// Tiers run from 1 to the tier cap and never drop as the stage rises.
pub proof fn lemma_tier_bounds_and_monotone(early: u32, late: u32)
    requires
        early <= late,
    ensures
        1 <= tier_for_stage(early) <= ENEMY_TIER_CAP,
        tier_for_stage(early) <= tier_for_stage(late),
{
    vstd::arithmetic::div_mod::lemma_div_is_ordered(early as int, late as int, 2);
}

} // verus!

verus! {

/// Spawn attempts at most this many candidate positions before giving up.
pub const SPAWN_ATTEMPTS: u64 = 18;

/// Counts the spawn timer down by `dt_ms`. While an enemy is alive (the
/// enemy limit of one being reached) no spawn is tried and the timer is held
/// at a quarter second at least; otherwise a spawn is tried once the timer
/// has run out.
pub fn enemy_spawn_tick(state: &mut EnemySpawnState, dt_ms: u32, live_enemies: u32) -> (try_spawn: bool)
    requires
        old(state).timer_ms - dt_ms >= i64::MIN,
    ensures
        ({
            let t = old(state).timer_ms - dt_ms;
            &&& try_spawn == (live_enemies < 1 && t <= 0)
            &&& final(state).timer_ms == (if live_enemies >= 1 && t < 250 { 250 } else { t })
            &&& final(state).session_elapsed_ms == old(state).session_elapsed_ms
            &&& final(state).total_spawned == old(state).total_spawned
        }),
{
    state.timer_ms = state.timer_ms - dt_ms as i64;
    if live_enemies >= 1 {
        if state.timer_ms < 250 {
            state.timer_ms = 250;
        }
        return false;
    }
    state.timer_ms <= 0
}

/// What to spawn: its spawn index, its tier, and its first-shot delay.
#[derive(Clone, Copy, Debug)]
pub struct EnemySpawnPlan {
    pub spawn_index: u64,
    pub tier: u32,
    pub fire_timer_ms: u32,
}

/// Finishes a spawn try. `found_attempt` is the first of the candidate
/// positions (counted from the spawn slots used so far) that was far enough
/// from the player and the other enemies, or `None`. Without a position the
/// next try comes in 0.8 s. With one, the slots up to it are used up, the
/// enemy gets the tier of the current stage and its staggered first-shot
/// delay, and the next try waits the stage's spawn cooldown.
pub fn enemy_spawn_commit(
    state: &mut EnemySpawnState,
    config: &EnemySpawnConfig,
    score_points: u32,
    found_attempt: Option<u64>,
    fire_cooldown_base_ms: u32,
) -> (plan: Option<EnemySpawnPlan>)
    requires
        found_attempt matches Some(a) ==> a < SPAWN_ATTEMPTS && old(state).total_spawned + a + 1 <= u64::MAX,
        profile_fits(*config, score_points, old(state).session_elapsed_ms),
    ensures
        found_attempt is None ==> plan is None && *final(state) == (EnemySpawnState {
            timer_ms: 800,
            ..*old(state)
        }),
        found_attempt matches Some(a) ==> {
            let stage = spawn_stage(*config, score_points, old(state).session_elapsed_ms);
            let index = (old(state).total_spawned + a + 1) as u64;
            &&& plan == Some(
                EnemySpawnPlan {
                    spawn_index: index,
                    tier: tier_for_stage(stage as u32),
                    fire_timer_ms: fire_timer_ms(index, fire_cooldown_base_ms) as u32,
                },
            )
            &&& *final(state) == (EnemySpawnState {
                total_spawned: index,
                timer_ms: spawn_cooldown_ms(*config, stage) as i64,
                ..*old(state)
            })
        },
{
    let (_cap, next_cooldown) = enemy_spawn_profile(config, score_points, state.session_elapsed_ms);
    match found_attempt {
        None => {
            state.timer_ms = 800;
            None
        },
        Some(a) => {
            state.total_spawned = state.total_spawned + a + 1;
            let spawn_index = state.total_spawned;
            let stage_len: u64 = if config.enemy_stage_time_ms >= 1000 { config.enemy_stage_time_ms } else { 1000 };
            let time_stages_u64: u64 = state.session_elapsed_ms / stage_len;
            let time_stages: u32 = if time_stages_u64 > 0xFFFF_FFFFu64 { 0xFFFF_FFFFu32 } else { time_stages_u64 as u32 };
            let stage_score: u32 = if config.enemy_stage_score_points >= 1 { config.enemy_stage_score_points } else { 1 };
            let stage: u32 = time_stages + score_points / stage_score;
            let tier = enemy_tier_for_stage(stage);
            let fire_timer = initial_enemy_fire_timer(spawn_index, fire_cooldown_base_ms);
            state.timer_ms = next_cooldown as i64;
            Some(EnemySpawnPlan { spawn_index, tier, fire_timer_ms: fire_timer })
        },
    }
}

} // verus!
