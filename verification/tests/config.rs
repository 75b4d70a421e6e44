use accretion::config::{
    hot_reload_observe, hot_reload_poll, init_physics_hot_reload_state,
    PhysicsConfigHotReloadState,
};

#[test]
fn poll_every_half_second() {
    let mut s = PhysicsConfigHotReloadState::default();
    assert!(!hot_reload_poll(&mut s, 300));
    assert_eq!(s.poll_timer_ms, 300);
    assert!(hot_reload_poll(&mut s, 200));
    assert_eq!(s.poll_timer_ms, 0);
}

#[test]
fn reload_only_on_newer_modification() {
    let mut s = PhysicsConfigHotReloadState::default();
    init_physics_hot_reload_state(&mut s, None);
    assert!(!hot_reload_observe(&mut s, Some(100)));
    assert_eq!(s.last_seen_modified, Some(100));
    assert!(!hot_reload_observe(&mut s, Some(100)));
    assert!(!hot_reload_observe(&mut s, Some(90)));
    assert_eq!(s.last_seen_modified, Some(100));
    assert!(hot_reload_observe(&mut s, Some(150)));
    assert_eq!(s.last_seen_modified, Some(150));
    assert!(!hot_reload_observe(&mut s, Some(150)));
    assert!(!hot_reload_observe(&mut s, None));
    assert_eq!(s.last_seen_modified, None);
}
