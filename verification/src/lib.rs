//! Verified game logic of the Accretion asteroid-aggregation game: allocation
//! profiling counters, ore upgrades, projectile hits on asteroids, enemy spawn pacing, the campaign mission
//! and wave state machines, menu navigation and text editing, and font
//! coverage diagnostics.

pub mod alloc_profile;
pub mod campaign;
pub mod combat;
pub mod config;
pub mod enemy;
pub mod graphics;
pub mod menu;
pub mod mining;
pub mod text;
