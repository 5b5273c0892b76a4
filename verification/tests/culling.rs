//! Boundary culling: an entity exactly on the configured edge survives; one
//! milli-unit beyond it is despawned.

use asteroid_sim::asteroids::{init_timer, manage_asteroids, SpawnDraw};
use asteroid_sim::geometry::{Bounds, Vec2I};
use asteroid_sim::registry::{spawn_asteroid, spawn_projectile, Registry};
use asteroid_sim::shooting::manage_projectiles;

fn v(x: i64, y: i64) -> Vec2I {
    Vec2I { x, y }
}

fn bounds() -> Bounds {
    Bounds { half_width: 160_000, half_height: 90_000 }
}

fn skip_draw() -> SpawnDraw {
    SpawnDraw { skip: true, pos: v(0, 0), scale: 300, vel: v(0, 0), angvel: 0 }
}

#[test]
fn asteroid_on_edge_survives_one_beyond_is_culled() {
    let mut reg = Registry::new();
    spawn_asteroid(&mut reg, v(160_000, 0), v(0, 0), 0, 400);
    spawn_asteroid(&mut reg, v(160_001, 0), v(0, 0), 0, 400);
    spawn_asteroid(&mut reg, v(-160_000, 90_000), v(0, 0), 0, 400);
    spawn_asteroid(&mut reg, v(0, -90_001), v(0, 0), 0, 400);
    let edge_ids = [reg.asteroids[0].id, reg.asteroids[2].id];
    let mut timer = init_timer();
    manage_asteroids(&mut reg, &mut timer, bounds(), 0, skip_draw());
    assert_eq!(reg.asteroids.len(), 2);
    assert_eq!(reg.asteroids[0].id, edge_ids[0]);
    assert_eq!(reg.asteroids[1].id, edge_ids[1]);
}

#[test]
fn projectile_on_edge_survives_one_beyond_is_culled() {
    let mut reg = Registry::new();
    spawn_projectile(&mut reg, v(0, 90_000), v(1000, 1000));
    spawn_projectile(&mut reg, v(0, 90_001), v(1000, 1000));
    spawn_projectile(&mut reg, v(-160_001, 0), v(1000, 1000));
    let keep = reg.projectiles[0].id;
    manage_projectiles(&mut reg, bounds());
    assert_eq!(reg.projectiles.len(), 1);
    assert_eq!(reg.projectiles[0].id, keep);
}

#[test]
fn culling_leaves_other_kinds_alone() {
    let mut reg = Registry::new();
    asteroid_sim::registry::setup_player(&mut reg);
    spawn_projectile(&mut reg, v(500_000, 0), v(1000, 1000));
    spawn_asteroid(&mut reg, v(500_000, 0), v(0, 0), 0, 400);
    let mut timer = init_timer();
    manage_asteroids(&mut reg, &mut timer, bounds(), 0, skip_draw());
    assert_eq!(reg.asteroids.len(), 0);
    assert_eq!(reg.projectiles.len(), 1);
    manage_projectiles(&mut reg, bounds());
    assert_eq!(reg.projectiles.len(), 0);
    assert!(reg.player.is_some());
}
