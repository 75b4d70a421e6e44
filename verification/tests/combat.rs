use accretion::combat::{canonical_shape_for_mass, canonical_vertex_count, CanonicalShape};
use accretion::combat::{
    asteroid_hit_outcome, projectile_asteroid_hit_system, projectile_asteroid_hits,
    AsteroidHit, AsteroidHitOutcome,
};
use accretion::mining::CollisionEvent;

#[test]
fn hit_size_rules() {
    assert_eq!(asteroid_hit_outcome(0), AsteroidHitOutcome::Destroy);
    assert_eq!(asteroid_hit_outcome(1), AsteroidHitOutcome::Destroy);
    assert_eq!(asteroid_hit_outcome(2), AsteroidHitOutcome::Scatter(2));
    assert_eq!(asteroid_hit_outcome(3), AsteroidHitOutcome::Scatter(3));
    assert_eq!(asteroid_hit_outcome(4), AsteroidHitOutcome::Split(2, 2));
    assert_eq!(asteroid_hit_outcome(7), AsteroidHitOutcome::Split(3, 4));
    assert_eq!(asteroid_hit_outcome(8), AsteroidHitOutcome::Split(4, 4));
    assert_eq!(asteroid_hit_outcome(9), AsteroidHitOutcome::Chip(8));
    assert_eq!(asteroid_hit_outcome(40), AsteroidHitOutcome::Chip(39));
}

#[test]
fn each_projectile_and_asteroid_is_hit_once_per_frame() {
    let projectiles = vec![1, 2, 3];
    let asteroids = vec![10, 11];
    let events = vec![
        CollisionEvent::Stopped(1, 10),
        CollisionEvent::Started(10, 1), // asteroid first: still a hit
        CollisionEvent::Started(1, 11), // projectile 1 already spent
        CollisionEvent::Started(2, 10), // asteroid 10 already hit
        CollisionEvent::Started(2, 3),  // two projectiles
        CollisionEvent::Started(3, 11),
        CollisionEvent::Started(2, 99), // not an asteroid
    ];
    assert_eq!(
        projectile_asteroid_hits(&events, &projectiles, &asteroids),
        vec![(1, 10), (3, 11)]
    );
    assert!(projectile_asteroid_hits(&vec![], &projectiles, &asteroids).is_empty());
}

#[test]
fn frame_hits_carry_their_outcome() {
    let events = vec![CollisionEvent::Started(1, 10), CollisionEvent::Started(11, 2)];
    let hits = projectile_asteroid_hit_system(&events, &vec![1, 2], &vec![(10, 5), (11, 12)]);
    assert_eq!(
        hits,
        vec![
            AsteroidHit { projectile: 1, asteroid: 10, outcome: AsteroidHitOutcome::Split(2, 3) },
            AsteroidHit { projectile: 2, asteroid: 11, outcome: AsteroidHitOutcome::Chip(11) },
        ]
    );
}

#[test]
fn mass_to_shape_table() {
    let expected = [
        (0, CanonicalShape::Triangle, 3),
        (1, CanonicalShape::Triangle, 3),
        (2, CanonicalShape::Square, 4),
        (4, CanonicalShape::Square, 4),
        (5, CanonicalShape::Pentagon, 5),
        (6, CanonicalShape::Hexagon, 6),
        (7, CanonicalShape::Hexagon, 6),
        (8, CanonicalShape::Heptagon, 7),
        (9, CanonicalShape::Heptagon, 7),
        (10, CanonicalShape::Octagon, 8),
        (500, CanonicalShape::Octagon, 8),
    ];
    for (mass, shape, count) in expected {
        assert_eq!(canonical_shape_for_mass(mass), shape);
        assert_eq!(canonical_vertex_count(mass), count);
    }
}
