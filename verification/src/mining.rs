//! Ore currency and the ore magnet (affinity) upgrade track.
//!
//! Ore is collected from destroyed asteroids and spent in the ore shop. The
//! magnet upgrade has ten levels; level 0 is the base, and each upgrade costs
//! the base cost times the 1-indexed number of the level being bought.

use vstd::prelude::*;

verus! {

/// Number of magnet levels, counting the base level.
pub const ORE_AFFINITY_MAX_LEVEL: u32 = 10;

/// Ore cost multiplier for the next magnet level.
pub const ORE_AFFINITY_UPGRADE_BASE_COST: u32 = 5;

/// The player's total accumulated ore.
#[derive(Clone, Copy, Debug, Default)]
pub struct PlayerOre {
    pub count: u32,
}

/// Ore magnet upgrade level: 0-indexed internally, shown 1-indexed.
#[derive(Clone, Copy, Debug, Default)]
pub struct OreAffinityLevel {
    pub level: u32,
}

/// The highest internal level (inclusive).
pub open spec fn affinity_max() -> u32 {
    (ORE_AFFINITY_MAX_LEVEL - 1) as u32
}

/// Ore cost to go from internal level `level` to the next one, or `None` at
/// the top level.
pub open spec fn affinity_cost(level: u32) -> Option<u32> {
    if level >= affinity_max() {
        None
    } else {
        Some((ORE_AFFINITY_UPGRADE_BASE_COST * (level + 2)) as u32)
    }
}

/// Whether `ore` pays for the level after `level`.
pub open spec fn affinity_affordable(level: u32, ore: u32) -> bool {
    affinity_cost(level) matches Some(c) && ore >= c
}

/// Total ore spent to climb from internal level `from` up to `to`.
pub open spec fn affinity_cost_between(from: nat, to: nat) -> nat
    decreases to - from,
{
    if to <= from {
        0
    } else {
        (affinity_cost_between(from, (to - 1) as nat) + ORE_AFFINITY_UPGRADE_BASE_COST * (to + 1)) as nat
    }
}

impl OreAffinityLevel {
    /// The highest internal level (inclusive).
    pub const MAX: u32 = ORE_AFFINITY_MAX_LEVEL - 1;

    /// The level shown to the player (1-indexed).
    pub fn display_level(&self) -> (shown: u32)
        requires
            self.level < u32::MAX,
        ensures
            shown == self.level + 1,
    {
        self.level + 1
    }

    /// Whether no further upgrade can be bought.
    pub fn is_maxed(&self) -> (maxed: bool)
        ensures
            maxed == (self.level >= affinity_max()),
    {
        self.level >= Self::MAX
    }

    /// Ore cost of the next level, or `None` when already at the top.
    pub fn cost_for_next_level(&self) -> (cost: Option<u32>)
        ensures
            cost == affinity_cost(self.level),
    {
        if self.is_maxed() {
            None
        } else {
            Some(ORE_AFFINITY_UPGRADE_BASE_COST * (self.level + 2))
        }
    }

    /// Whether `ore` pays for the next level.
    pub fn can_afford_next(&self, ore: u32) -> (affordable: bool)
        ensures
            affordable == affinity_affordable(self.level, ore),
    {
        match self.cost_for_next_level() {
            Some(cost) => ore >= cost,
            None => false,
        }
    }

    /// Spends ore on the next level. Returns the amount spent, or `None`
    /// (changing nothing) when at the top level or the ore does not suffice.
    pub fn try_upgrade(&mut self, ore: &mut u32) -> (spent: Option<u32>)
        ensures
            match affinity_cost(old(self).level) {
                Some(c) if affinity_affordable(old(self).level, *old(ore)) => {
                    &&& spent == Some(c)
                    &&& *final(ore) == *old(ore) - c
                    &&& final(self).level == old(self).level + 1
                },
                _ => {
                    &&& spent is None
                    &&& *final(ore) == *old(ore)
                    &&& *final(self) == *old(self)
                },
            },
    {
        let cost = match self.cost_for_next_level() {
            Some(c) => c,
            None => return None,
        };
        if *ore < cost {
            return None;
        }
        *ore = *ore - cost;
        self.level = self.level + 1;
        Some(cost)
    }
}

/// The level never passes the top: when an upgrade is bought from a level at
/// or below the top, the new level is still at or below the top.
pub proof fn lemma_upgrade_stays_in_range(level: u32, ore: u32)
    requires
        level <= affinity_max(),
    ensures
        affinity_affordable(level, ore) ==> level + 1 <= affinity_max(),
{
}

/// An upgrade is affordable exactly when the level is below the top and the
/// ore covers the base cost times the 1-indexed number of the next level.
pub proof fn lemma_affordable_iff(level: u32, ore: u32)
    ensures
        affinity_affordable(level, ore) <==> (level < affinity_max()
            && ore >= ORE_AFFINITY_UPGRADE_BASE_COST * (level + 2)),
{
}

/// The magnet track in numbers: internal levels run from 0 to 9; the next
/// level costs 5 times the level plus 2 ore (10 for the first upgrade, 50
/// for the last), and none is sold at level 9 or above.
pub proof fn lemma_magnet_cost_rule(level: u32)
    ensures
        level < 9 ==> affinity_cost(level) == Some((5 * (level + 2)) as u32),
        level >= 9 ==> affinity_cost(level) is None,
        affinity_max() == 9,
{
}

/// Buying every level from the base up to the top costs 270 ore in all.
pub proof fn lemma_full_upgrade_total()
    ensures
        affinity_cost_between(0, affinity_max() as nat) == 270,
{
    reveal_with_fuel(affinity_cost_between, 10);
}

/// A contact between two physics bodies, named by entity id.
#[derive(Clone, Copy, Debug, PartialEq, Eq, Structural)]
pub enum CollisionEvent {
    Started(u64, u64),
    Stopped(u64, u64),
}

/// The ore pickup that `event` collects, if it is the start of a contact
/// between an ore pickup and the player.
pub open spec fn collected_by(event: CollisionEvent, ore_entities: Seq<u64>, player: u64) -> Option<u64> {
    match event {
        CollisionEvent::Started(e1, e2) => if ore_entities.contains(e1) && e2 == player {
            Some(e1)
        } else if ore_entities.contains(e2) && e1 == player {
            Some(e2)
        } else {
            None
        },
        CollisionEvent::Stopped(_, _) => None,
    }
}

/// The ore pickups collected by `events`, in order, one per collecting event.
pub open spec fn collected_pickups(events: Seq<CollisionEvent>, ore_entities: Seq<u64>, player: u64) -> Seq<u64>
    decreases events.len(),
{
    if events.len() == 0 {
        Seq::empty()
    } else {
        let rest = collected_pickups(events.drop_last(), ore_entities, player);
        match collected_by(events.last(), ore_entities, player) {
            Some(e) => rest.push(e),
            None => rest,
        }
    }
}

fn contains_entity(ids: &Vec<u64>, id: u64) -> (found: bool)
    ensures
        found == ids@.contains(id),
{
    let mut i: usize = 0;
    while i < ids.len()
        invariant
            i <= ids@.len(),
            forall|j: int| 0 <= j < i ==> ids@[j] != id,
        decreases ids@.len() - i,
    {
        if ids[i] == id {
            return true;
        }
        i = i + 1;
    }
    false
}

/// The pickups collected by the first `i` events are never more than those
/// collected by all of them.
proof fn lemma_collected_prefix(events: Seq<CollisionEvent>, ore_entities: Seq<u64>, player: u64, i: int)
    requires
        0 <= i <= events.len(),
    ensures
        collected_pickups(events.subrange(0, i), ore_entities, player).len() <= collected_pickups(
            events,
            ore_entities,
            player,
        ).len(),
    decreases events.len(),
{
    if i == events.len() {
        assert(events.subrange(0, i) =~= events);
    } else {
        lemma_collected_prefix(events.drop_last(), ore_entities, player, i);
        assert(events.drop_last().subrange(0, i) =~= events.subrange(0, i));
    }
}

/// Collects ore: every started contact between an ore pickup and the player
/// adds one ore. Returns the pickups to despawn.
pub fn ore_collection_system(
    events: &Vec<CollisionEvent>,
    ore_entities: &Vec<u64>,
    player: u64,
    ore: &mut PlayerOre,
) -> (despawn: Vec<u64>)
    requires
        old(ore).count + collected_pickups(events@, ore_entities@, player).len() <= u32::MAX,
    ensures
        despawn@ == collected_pickups(events@, ore_entities@, player),
        final(ore).count == old(ore).count + despawn@.len(),
{
    let mut despawn: Vec<u64> = Vec::new();
    let mut i: usize = 0;
    while i < events.len()
        invariant
            i <= events@.len(),
            despawn@ == collected_pickups(events@.subrange(0, i as int), ore_entities@, player),
            ore.count == old(ore).count + despawn@.len(),
            old(ore).count + collected_pickups(events@, ore_entities@, player).len() <= u32::MAX,
        decreases events@.len() - i,
    {
        proof {
            assert(events@.subrange(0, i + 1).drop_last() =~= events@.subrange(0, i as int));
            lemma_collected_prefix(events@, ore_entities@, player, i + 1);
        }
        let (e1, e2) = match events[i] {
            CollisionEvent::Started(e1, e2) => (e1, e2),
            CollisionEvent::Stopped(_, _) => {
                i = i + 1;
                continue;
            },
        };
        let collected = if contains_entity(ore_entities, e1) && e2 == player {
            Some(e1)
        } else if contains_entity(ore_entities, e2) && e1 == player {
            Some(e2)
        } else {
            None
        };
        match collected {
            Some(e) => {
                despawn.push(e);
                ore.count = ore.count + 1;
            },
            None => {},
        }
        i = i + 1;
    }
    proof {
        assert(events@.subrange(0, events@.len() as int) =~= events@);
    }
    despawn
}

} // verus!
