use accretion::mining::{
    ore_collection_system, CollisionEvent, OreAffinityLevel, PlayerOre,
    ORE_AFFINITY_MAX_LEVEL, ORE_AFFINITY_UPGRADE_BASE_COST,
};

#[test]
fn magnet_costs_follow_next_display_level() {
    let base = OreAffinityLevel { level: 0 };
    assert_eq!(base.display_level(), 1);
    assert_eq!(base.cost_for_next_level(), Some(10));
    assert_eq!(OreAffinityLevel { level: 8 }.cost_for_next_level(), Some(50));
    assert_eq!(OreAffinityLevel { level: 9 }.cost_for_next_level(), None);
    assert!(OreAffinityLevel { level: 9 }.is_maxed());
    assert!(!OreAffinityLevel { level: 8 }.is_maxed());
    assert_eq!(OreAffinityLevel::MAX, ORE_AFFINITY_MAX_LEVEL - 1);
    assert_eq!(ORE_AFFINITY_UPGRADE_BASE_COST, 5);
}

#[test]
fn upgrade_spends_exactly_the_cost() {
    let mut level = OreAffinityLevel { level: 2 };
    let mut ore = 25;
    assert!(level.can_afford_next(ore));
    assert_eq!(level.try_upgrade(&mut ore), Some(20));
    assert_eq!((level.level, ore), (3, 5));
    assert!(!level.can_afford_next(ore));
    assert_eq!(level.try_upgrade(&mut ore), None);
    assert_eq!((level.level, ore), (3, 5));
}

#[test]
fn maxed_magnet_refuses_upgrades() {
    let mut level = OreAffinityLevel { level: 9 };
    let mut ore = 10_000;
    assert!(!level.can_afford_next(ore));
    assert_eq!(level.try_upgrade(&mut ore), None);
    assert_eq!((level.level, ore), (9, 10_000));
}

#[test]
fn full_magnet_track_costs_270() {
    let mut level = OreAffinityLevel::default();
    let mut ore = 1_000;
    let mut spent = 0;
    while let Some(cost) = level.try_upgrade(&mut ore) {
        spent += cost;
    }
    assert_eq!(spent, 270);
    assert_eq!(level.level, 9);
    assert_eq!(ore, 730);
}

#[test]
fn ore_collected_on_player_contact_only() {
    let ore_entities = vec![10, 11, 12];
    let player = 1;
    let events = vec![
        CollisionEvent::Started(10, 1),
        CollisionEvent::Stopped(11, 1),
        CollisionEvent::Started(1, 12),
        CollisionEvent::Started(11, 2),
        CollisionEvent::Started(5, 1),
    ];
    let mut ore = PlayerOre { count: 4 };
    let despawn = ore_collection_system(&events, &ore_entities, player, &mut ore);
    assert_eq!(despawn, vec![10, 12]);
    assert_eq!(ore.count, 6);
}

#[test]
fn ore_near_the_top_collects_what_fits() {
    // Many contacts, one pickup: only the collected pickup must fit.
    let mut ore = PlayerOre { count: u32::MAX - 1 };
    let events = vec![
        CollisionEvent::Started(5, 6),
        CollisionEvent::Stopped(100, 1),
        CollisionEvent::Started(100, 1),
        CollisionEvent::Started(7, 8),
    ];
    let despawn = ore_collection_system(&events, &vec![100], 1, &mut ore);
    assert_eq!(despawn, vec![100]);
    assert_eq!(ore.count, u32::MAX);
}
