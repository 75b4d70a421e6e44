//! Player shots against asteroids: which projectile hits which asteroid in a
//! frame, and what a hit does to an asteroid of a given size.
//!
//! Where the pieces fly, and the shape of each piece, is floating-point
//! geometry that the caller computes; this module decides how many pieces of
//! which sizes there are, and which entities take part.

use vstd::prelude::*;
use crate::mining::CollisionEvent;

verus! {

/// What a projectile hit does to an asteroid.
#[derive(Clone, Copy, Debug, PartialEq, Eq, Structural)]
pub enum AsteroidHitOutcome {
    /// The asteroid is destroyed.
    Destroy,
    /// The asteroid breaks into this many unit fragments.
    Scatter(u32),
    /// The asteroid splits, across the impact axis, into two pieces of these
    /// sizes.
    Split(u32, u32),
    /// One unit chips off as a unit fragment, and the asteroid goes on at this
    /// size.
    Chip(u32),
}

/// No contact start between a listed projectile and a listed asteroid is
/// lost: after the frame, that projectile or that asteroid is in some hit
/// (the pair itself, unless one of them had already been hit earlier).
pub proof fn lemma_contact_starts_are_not_lost(
    events: Seq<CollisionEvent>,
    projectiles: Seq<u64>,
    asteroids: Seq<u64>,
    j: int,
    e1: u64,
    e2: u64,
)
    requires
        0 <= j < events.len(),
        events[j] == CollisionEvent::Started(e1, e2),
        (projectiles.contains(e1) && asteroids.contains(e2)) || (projectiles.contains(e2) && asteroids.contains(
            e1,
        )),
    ensures
        projectiles.contains(e1) && asteroids.contains(e2) ==> exists|k: int|
            0 <= k < frame_hits(events, projectiles, asteroids).len() && (frame_hits(
                events,
                projectiles,
                asteroids,
            )[k].0 == e1 || frame_hits(events, projectiles, asteroids)[k].1 == e2),
        !(projectiles.contains(e1) && asteroids.contains(e2)) ==> exists|k: int|
            0 <= k < frame_hits(events, projectiles, asteroids).len() && (frame_hits(
                events,
                projectiles,
                asteroids,
            )[k].0 == e2 || frame_hits(events, projectiles, asteroids)[k].1 == e1),
    decreases events.len(),
{
    let init = events.drop_last();
    let rest = frame_hits(init, projectiles, asteroids);
    let all = frame_hits(events, projectiles, asteroids);
    assert(forall|k: int| 0 <= k < rest.len() ==> all[k] == rest[k]);
    assert(rest.len() <= all.len());
    let (p, a) = if projectiles.contains(e1) && asteroids.contains(e2) { (e1, e2) } else { (e2, e1) };
    if j < events.len() - 1 {
        assert(init[j] == events[j]);
        lemma_contact_starts_are_not_lost(init, projectiles, asteroids, j, e1, e2);
        let k = choose|k: int| 0 <= k < rest.len() && (rest[k].0 == p || rest[k].1 == a);
        assert(all[k] == rest[k]);
    } else {
        assert(hit_pair(events.last(), projectiles, asteroids) == Some((p, a)));
        if already_hit(rest, p, a) {
            let k = choose|k: int| 0 <= k < rest.len() && (rest[k].0 == p || rest[k].1 == a);
            assert(all[k] == rest[k]);
        } else {
            assert(all == rest.push((p, a)));
            assert(all[rest.len() as int] == (p, a));
        }
    }
}

/// The size rules of a hit: size 1 (or 0) is destroyed, 2 and 3 scatter into
/// unit fragments, 4 to 8 split in half (the second half taking the odd
/// unit), and 9 and above lose one unit.
pub open spec fn hit_outcome(size: u32) -> AsteroidHitOutcome {
    if size <= 1 {
        AsteroidHitOutcome::Destroy
    } else if size <= 3 {
        AsteroidHitOutcome::Scatter(size)
    } else if size <= 8 {
        AsteroidHitOutcome::Split(size / 2, (size - size / 2) as u32)
    } else {
        AsteroidHitOutcome::Chip((size - 1) as u32)
    }
}

/// What a projectile hit does to an asteroid of `size`.
pub fn asteroid_hit_outcome(size: u32) -> (outcome: AsteroidHitOutcome)
    ensures
        outcome == hit_outcome(size),
{
    if size <= 1 {
        AsteroidHitOutcome::Destroy
    } else if size <= 3 {
        AsteroidHitOutcome::Scatter(size)
    } else if size <= 8 {
        AsteroidHitOutcome::Split(size / 2, size - size / 2)
    } else {
        AsteroidHitOutcome::Chip(size - 1)
    }
}

/// A hit keeps the asteroid's mass: the pieces it leaves, with the chipped
/// unit, add up to the size that was hit (a destroyed asteroid leaves none).
pub proof fn lemma_hit_keeps_mass(size: u32)
    requires
        size >= 2,
    ensures
        match hit_outcome(size) {
            AsteroidHitOutcome::Destroy => false,
            AsteroidHitOutcome::Scatter(n) => n == size,
            AsteroidHitOutcome::Split(a, b) => a + b == size && 2 <= a <= b <= a + 1,
            AsteroidHitOutcome::Chip(rest) => rest + 1 == size && rest >= 8,
        },
{
}

/// The (projectile, asteroid) pair that `event` brings together, if it is the
/// start of a contact between a projectile and an asteroid (the projectile
/// looked for first as the first body).
pub open spec fn hit_pair(event: CollisionEvent, projectiles: Seq<u64>, asteroids: Seq<u64>) -> Option<(u64, u64)> {
    match event {
        CollisionEvent::Started(e1, e2) => if projectiles.contains(e1) && asteroids.contains(e2) {
            Some((e1, e2))
        } else if projectiles.contains(e2) && asteroids.contains(e1) {
            Some((e2, e1))
        } else {
            None
        },
        CollisionEvent::Stopped(_, _) => None,
    }
}

/// Whether `projectile` or `asteroid` already takes part in one of `hits`.
pub open spec fn already_hit(hits: Seq<(u64, u64)>, projectile: u64, asteroid: u64) -> bool {
    exists|i: int| 0 <= i < hits.len() && (hits[i].0 == projectile || hits[i].1 == asteroid)
}

/// The hits of a frame, in event order: each contact start between a
/// projectile and an asteroid counts, unless the projectile or the asteroid
/// was already hit earlier in the frame.
pub open spec fn frame_hits(events: Seq<CollisionEvent>, projectiles: Seq<u64>, asteroids: Seq<u64>) -> Seq<(u64, u64)>
    decreases events.len(),
{
    if events.len() == 0 {
        Seq::empty()
    } else {
        let rest = frame_hits(events.drop_last(), projectiles, asteroids);
        match hit_pair(events.last(), projectiles, asteroids) {
            Some((p, a)) => if already_hit(rest, p, a) {
                rest
            } else {
                rest.push((p, a))
            },
            None => rest,
        }
    }
}

fn listed(ids: &Vec<u64>, id: u64) -> (found: bool)
    ensures
        found == ids@.contains(id),
{
    let mut i: usize = 0;
    while i < ids.len()
        invariant
            i <= ids@.len(),
            forall|j: int| 0 <= j < i ==> ids@[j] != id,
        decreases ids@.len() - i,
    {
        if ids[i] == id {
            return true;
        }
        i = i + 1;
    }
    false
}

fn find_already_hit(hits: &Vec<(u64, u64)>, projectile: u64, asteroid: u64) -> (found: bool)
    ensures
        found == already_hit(hits@, projectile, asteroid),
{
    let mut i: usize = 0;
    while i < hits.len()
        invariant
            i <= hits@.len(),
            forall|j: int| 0 <= j < i ==> hits@[j].0 != projectile && hits@[j].1 != asteroid,
        decreases hits@.len() - i,
    {
        let (p, a) = hits[i];
        if p == projectile || a == asteroid {
            assert(0 <= i < hits@.len() && (hits@[i as int].0 == projectile || hits@[i as int].1 == asteroid));
            return true;
        }
        i = i + 1;
    }
    false
}

/// The projectile and asteroid hits of a frame: one per contact start between
/// a projectile and an asteroid, each projectile and each asteroid taking part
/// in at most one. Every hit projectile is despawned by the caller.
pub fn projectile_asteroid_hits(
    events: &Vec<CollisionEvent>,
    projectiles: &Vec<u64>,
    asteroids: &Vec<u64>,
) -> (hits: Vec<(u64, u64)>)
    ensures
        hits@ == frame_hits(events@, projectiles@, asteroids@),
{
    let mut hits: Vec<(u64, u64)> = Vec::new();
    let mut i: usize = 0;
    while i < events.len()
        invariant
            i <= events@.len(),
            hits@ == frame_hits(events@.subrange(0, i as int), projectiles@, asteroids@),
        decreases events@.len() - i,
    {
        proof {
            assert(events@.subrange(0, i + 1).drop_last() =~= events@.subrange(0, i as int));
        }
        let pair: Option<(u64, u64)> = match events[i] {
            CollisionEvent::Started(e1, e2) => {
                if listed(projectiles, e1) && listed(asteroids, e2) {
                    Some((e1, e2))
                } else if listed(projectiles, e2) && listed(asteroids, e1) {
                    Some((e2, e1))
                } else {
                    None
                }
            },
            CollisionEvent::Stopped(_, _) => None,
        };
        match pair {
            Some((p, a)) => {
                if !find_already_hit(&hits, p, a) {
                    hits.push((p, a));
                }
            },
            None => {},
        }
        i = i + 1;
    }
    proof {
        assert(events@.subrange(0, events@.len() as int) =~= events@);
    }
    hits
}

/// The end of a contact is never a hit.
pub proof fn lemma_contact_end_is_no_hit(e1: u64, e2: u64, projectiles: Seq<u64>, asteroids: Seq<u64>)
    ensures
        hit_pair(CollisionEvent::Stopped(e1, e2), projectiles, asteroids) is None,
{
}

/// Every hit of a frame comes from the start of a contact between that
/// projectile and that asteroid (in either order) among the frame's events,
/// and names a listed projectile and a listed asteroid; a frame without
/// contact starts has no hits.
pub proof fn lemma_hits_come_from_contact_starts(
    events: Seq<CollisionEvent>,
    projectiles: Seq<u64>,
    asteroids: Seq<u64>,
)
    ensures
        forall|k: int|
            0 <= k < frame_hits(events, projectiles, asteroids).len() ==> {
                let h = #[trigger] frame_hits(events, projectiles, asteroids)[k];
                &&& projectiles.contains(h.0)
                &&& asteroids.contains(h.1)
                &&& exists|j: int|
                    0 <= j < events.len() && (events[j] == CollisionEvent::Started(h.0, h.1) || events[j]
                        == CollisionEvent::Started(h.1, h.0))
            },
        (forall|j: int| 0 <= j < events.len() ==> events[j] is Stopped) ==> frame_hits(
            events,
            projectiles,
            asteroids,
        ).len() == 0,
    decreases events.len(),
{
    if events.len() > 0 {
        let init = events.drop_last();
        let last = events.len() - 1;
        lemma_hits_come_from_contact_starts(init, projectiles, asteroids);
        let rest = frame_hits(init, projectiles, asteroids);
        let all = frame_hits(events, projectiles, asteroids);
        assert forall|k: int| 0 <= k < all.len() implies {
            let h = #[trigger] all[k];
            &&& projectiles.contains(h.0)
            &&& asteroids.contains(h.1)
            &&& exists|j: int|
                0 <= j < events.len() && (events[j] == CollisionEvent::Started(h.0, h.1) || events[j]
                    == CollisionEvent::Started(h.1, h.0))
        } by {
            if k < rest.len() {
                assert(all[k] == rest[k]);
                let h = rest[k];
                let j = choose|j: int|
                    0 <= j < init.len() && (init[j] == CollisionEvent::Started(h.0, h.1) || init[j]
                        == CollisionEvent::Started(h.1, h.0));
                assert(events[j] == init[j]);
            } else {
                assert(events[last] == events.last());
            }
        }
        if forall|j: int| 0 <= j < events.len() ==> events[j] is Stopped {
            assert forall|j: int| 0 <= j < init.len() implies init[j] is Stopped by {
                assert(init[j] == events[j]);
            }
            assert(events[last] is Stopped);
        }
    }
}

/// The size rules of a hit: 0 or 1 destroys; 2 and 3 scatter into that many
/// unit fragments; 4 to 8 split into the lower half and the rest; 9 and more
/// lose exactly one unit.
pub proof fn lemma_hit_size_rules(size: u32)
    ensures
        size <= 1 ==> hit_outcome(size) == AsteroidHitOutcome::Destroy,
        2 <= size <= 3 ==> hit_outcome(size) == AsteroidHitOutcome::Scatter(size),
        4 <= size <= 8 ==> hit_outcome(size) == AsteroidHitOutcome::Split(size / 2, (size - size / 2) as u32),
        size >= 9 ==> hit_outcome(size) == AsteroidHitOutcome::Chip((size - 1) as u32),
{
}

/// A hit of a frame, with what it does to the asteroid.
#[derive(Clone, Copy, Debug, PartialEq, Eq, Structural)]
pub struct AsteroidHit {
    pub projectile: u64,
    pub asteroid: u64,
    pub outcome: AsteroidHitOutcome,
}

/// The size listed for `asteroid` (the first entry with its id), or 0.
pub open spec fn size_of(asteroids: Seq<(u64, u32)>, asteroid: u64) -> u32
    decreases asteroids.len(),
{
    if asteroids.len() == 0 {
        0
    } else if asteroids[0].0 == asteroid {
        asteroids[0].1
    } else {
        size_of(asteroids.drop_first(), asteroid)
    }
}

/// The ids of the listed asteroids.
pub open spec fn asteroid_ids(asteroids: Seq<(u64, u32)>) -> Seq<u64> {
    asteroids.map_values(|e: (u64, u32)| e.0)
}

/// Each hit of the frame with what it does to its asteroid.
pub open spec fn frame_asteroid_hits(
    events: Seq<CollisionEvent>,
    projectiles: Seq<u64>,
    asteroids: Seq<(u64, u32)>,
) -> Seq<AsteroidHit> {
    frame_hits(events, projectiles, asteroid_ids(asteroids)).map_values(
        |h: (u64, u64)| AsteroidHit { projectile: h.0, asteroid: h.1, outcome: hit_outcome(size_of(asteroids, h.1)) },
    )
}

fn find_size(asteroids: &Vec<(u64, u32)>, asteroid: u64) -> (size: u32)
    ensures
        size == size_of(asteroids@, asteroid),
{
    let mut k: usize = 0;
    proof {
        assert(asteroids@.subrange(0, asteroids@.len() as int) =~= asteroids@);
    }
    while k < asteroids.len()
        invariant
            k <= asteroids@.len(),
            size_of(asteroids@, asteroid) == size_of(asteroids@.subrange(k as int, asteroids@.len() as int), asteroid),
        decreases asteroids@.len() - k,
    {
        let (id, size) = asteroids[k];
        proof {
            let rest = asteroids@.subrange(k as int, asteroids@.len() as int);
            assert(rest[0] == asteroids@[k as int]);
            assert(rest.drop_first() =~= asteroids@.subrange(k + 1, asteroids@.len() as int));
        }
        if id == asteroid {
            return size;
        }
        k = k + 1;
    }
    0
}

/// Handles the projectile hits of a frame: the asteroids are listed with their
/// sizes. Returns each hit, in event order, with what it does to its
/// asteroid; the caller despawns the projectile and the asteroid and spawns
/// the pieces.
pub fn projectile_asteroid_hit_system(
    events: &Vec<CollisionEvent>,
    projectiles: &Vec<u64>,
    asteroids: &Vec<(u64, u32)>,
) -> (hits: Vec<AsteroidHit>)
    ensures
        hits@ == frame_asteroid_hits(events@, projectiles@, asteroids@),
{
    let mut ids: Vec<u64> = Vec::new();
    let mut k: usize = 0;
    while k < asteroids.len()
        invariant
            k <= asteroids@.len(),
            ids@ == asteroid_ids(asteroids@.subrange(0, k as int)),
        decreases asteroids@.len() - k,
    {
        ids.push(asteroids[k].0);
        proof {
            assert(asteroid_ids(asteroids@.subrange(0, k + 1)) =~= asteroid_ids(asteroids@.subrange(0, k as int)).push(
                asteroids@[k as int].0,
            ));
        }
        k = k + 1;
    }
    proof {
        assert(asteroids@.subrange(0, asteroids@.len() as int) =~= asteroids@);
    }
    let pairs = projectile_asteroid_hits(events, projectiles, &ids);
    let mut hits: Vec<AsteroidHit> = Vec::new();
    let mut j: usize = 0;
    while j < pairs.len()
        invariant
            j <= pairs@.len(),
            pairs@ == frame_hits(events@, projectiles@, asteroid_ids(asteroids@)),
            hits@ == frame_asteroid_hits(events@, projectiles@, asteroids@).subrange(0, j as int),
        decreases pairs@.len() - j,
    {
        let (p, a) = pairs[j];
        let size = find_size(asteroids, a);
        hits.push(AsteroidHit { projectile: p, asteroid: a, outcome: asteroid_hit_outcome(size) });
        proof {
            assert(hits@ =~= frame_asteroid_hits(events@, projectiles@, asteroids@).subrange(0, j + 1));
        }
        j = j + 1;
    }
    proof {
        assert(hits@ =~= frame_asteroid_hits(events@, projectiles@, asteroids@));
    }
    hits
}

/// In a frame no projectile and no asteroid takes part in two hits.
pub proof fn lemma_frame_hits_distinct(events: Seq<CollisionEvent>, projectiles: Seq<u64>, asteroids: Seq<u64>)
    ensures
        forall|i: int, j: int|
            0 <= i < j < frame_hits(events, projectiles, asteroids).len() ==> #[trigger] frame_hits(
                events,
                projectiles,
                asteroids,
            )[i].0 != #[trigger] frame_hits(events, projectiles, asteroids)[j].0 && frame_hits(
                events,
                projectiles,
                asteroids,
            )[i].1 != frame_hits(events, projectiles, asteroids)[j].1,
    decreases events.len(),
{
    if events.len() > 0 {
        lemma_frame_hits_distinct(events.drop_last(), projectiles, asteroids);
        let rest = frame_hits(events.drop_last(), projectiles, asteroids);
        let all = frame_hits(events, projectiles, asteroids);
        assert forall|i: int, j: int| 0 <= i < j < all.len() implies #[trigger] all[i].0 != #[trigger] all[j].0
            && all[i].1 != all[j].1 by {
            if j < rest.len() {
                assert(all[i] == rest[i] && all[j] == rest[j]);
            } else {
                let (p, a) = hit_pair(events.last(), projectiles, asteroids)->0;
                assert(all == rest.push((p, a)));
                assert(all[i] == rest[i]);
                if all[i].0 == p || all[i].1 == a {
                    assert(already_hit(rest, p, a));
                }
            }
        }
    }
}

/// The base shape of an asteroid piece of a given mass.
#[derive(Clone, Copy, Debug, PartialEq, Eq, Structural)]
pub enum CanonicalShape {
    Triangle,
    Square,
    Pentagon,
    Hexagon,
    Heptagon,
    Octagon,
}

/// The mass-to-shape table: 1 (or 0) a triangle, 2 to 4 a square, 5 a
/// pentagon, 6 and 7 a hexagon, 8 and 9 a heptagon, 10 and above an octagon.
pub open spec fn shape_for_mass(mass: u32) -> CanonicalShape {
    if mass <= 1 {
        CanonicalShape::Triangle
    } else if mass <= 4 {
        CanonicalShape::Square
    } else if mass == 5 {
        CanonicalShape::Pentagon
    } else if mass <= 7 {
        CanonicalShape::Hexagon
    } else if mass <= 9 {
        CanonicalShape::Heptagon
    } else {
        CanonicalShape::Octagon
    }
}

/// The number of vertices of a shape.
pub open spec fn shape_vertices(shape: CanonicalShape) -> nat {
    match shape {
        CanonicalShape::Triangle => 3,
        CanonicalShape::Square => 4,
        CanonicalShape::Pentagon => 5,
        CanonicalShape::Hexagon => 6,
        CanonicalShape::Heptagon => 7,
        CanonicalShape::Octagon => 8,
    }
}

/// The base shape of a piece of `mass`, whose vertices the caller generates.
pub fn canonical_shape_for_mass(mass: u32) -> (shape: CanonicalShape)
    ensures
        shape == shape_for_mass(mass),
{
    if mass <= 1 {
        CanonicalShape::Triangle
    } else if mass <= 4 {
        CanonicalShape::Square
    } else if mass == 5 {
        CanonicalShape::Pentagon
    } else if mass <= 7 {
        CanonicalShape::Hexagon
    } else if mass <= 9 {
        CanonicalShape::Heptagon
    } else {
        CanonicalShape::Octagon
    }
}

/// The number of vertices of the base shape of a piece of `mass`.
pub fn canonical_vertex_count(mass: u32) -> (count: u32)
    ensures
        count == shape_vertices(shape_for_mass(mass)),
{
    match canonical_shape_for_mass(mass) {
        CanonicalShape::Triangle => 3,
        CanonicalShape::Square => 4,
        CanonicalShape::Pentagon => 5,
        CanonicalShape::Hexagon => 6,
        CanonicalShape::Heptagon => 7,
        CanonicalShape::Octagon => 8,
    }
}

/// A heavier piece never has fewer vertices, and every piece has from three
/// to eight.
pub proof fn lemma_vertices_grow_with_mass(light: u32, heavy: u32)
    requires
        light <= heavy,
    ensures
        shape_vertices(shape_for_mass(light)) <= shape_vertices(shape_for_mass(heavy)),
        3 <= shape_vertices(shape_for_mass(light)) <= 8,
{
}

/// The mass-to-shape table: masses 0 and 1 are triangles, 2 to 4 squares,
/// 5 a pentagon, 6 and 7 hexagons, 8 and 9 heptagons, 10 and more octagons.
pub proof fn lemma_shape_table(mass: u32)
    ensures
        mass <= 1 ==> shape_for_mass(mass) == CanonicalShape::Triangle,
        2 <= mass <= 4 ==> shape_for_mass(mass) == CanonicalShape::Square,
        mass == 5 ==> shape_for_mass(mass) == CanonicalShape::Pentagon,
        6 <= mass <= 7 ==> shape_for_mass(mass) == CanonicalShape::Hexagon,
        8 <= mass <= 9 ==> shape_for_mass(mass) == CanonicalShape::Heptagon,
        mass >= 10 ==> shape_for_mass(mass) == CanonicalShape::Octagon,
        shape_vertices(CanonicalShape::Triangle) == 3 && shape_vertices(CanonicalShape::Square) == 4
            && shape_vertices(CanonicalShape::Pentagon) == 5 && shape_vertices(CanonicalShape::Hexagon) == 6
            && shape_vertices(CanonicalShape::Heptagon) == 7 && shape_vertices(CanonicalShape::Octagon) == 8,
{
}

} // verus!
