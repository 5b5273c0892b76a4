//! Registry bookkeeping: creation, lookup, motion updates, and the
//! idempotence of despawning.

use asteroid_sim::geometry::Vec2I;
use asteroid_sim::registry::{
    classify, despawn, find_asteroid, set_entity_motion, setup_player, spawn_asteroid,
    spawn_projectile, EntityKind, Registry,
};

fn v(x: i64, y: i64) -> Vec2I {
    Vec2I { x, y }
}

#[test]
fn spawn_assigns_fresh_ids_and_scores() {
    let mut reg = Registry::new();
    spawn_asteroid(&mut reg, v(0, 0), v(1000, 0), 0, 500);
    spawn_asteroid(&mut reg, v(5, 5), v(0, 0), 0, 300);
    assert_eq!(reg.asteroids.len(), 2);
    assert_eq!(reg.asteroids[0].id, 0);
    assert_eq!(reg.asteroids[1].id, 1);
    assert_eq!(reg.next_id, 2);
    assert_eq!(reg.asteroids[0].score, 2);
    assert_eq!(reg.asteroids[1].score, 4);
    assert_eq!(reg.asteroids[0].scale, 500);
}

#[test]
fn despawn_twice_changes_registry_once() {
    let mut reg = Registry::new();
    spawn_asteroid(&mut reg, v(0, 0), v(0, 0), 0, 400);
    spawn_asteroid(&mut reg, v(1, 1), v(0, 0), 0, 400);
    let id = reg.asteroids[0].id;
    despawn(&mut reg, id);
    assert_eq!(reg.asteroids.len(), 1);
    let survivor = reg.asteroids[0].id;
    despawn(&mut reg, id);
    assert_eq!(reg.asteroids.len(), 1);
    assert_eq!(reg.asteroids[0].id, survivor);
    assert_eq!(reg.next_id, 2);
}

#[test]
fn despawn_missing_id_is_noop() {
    let mut reg = Registry::new();
    spawn_projectile(&mut reg, v(0, 0), v(100, 0));
    despawn(&mut reg, 77);
    assert_eq!(reg.projectiles.len(), 1);
}

#[test]
fn classify_by_membership() {
    let mut reg = Registry::new();
    setup_player(&mut reg);
    spawn_asteroid(&mut reg, v(0, 0), v(0, 0), 0, 400);
    spawn_projectile(&mut reg, v(0, 0), v(100, 0));
    let pid = reg.player.as_ref().unwrap().id;
    let aid = reg.asteroids[0].id;
    let jid = reg.projectiles[0].id;
    assert_eq!(classify(&reg, pid), Some(EntityKind::Player));
    assert_eq!(classify(&reg, aid), Some(EntityKind::Asteroid));
    assert_eq!(classify(&reg, jid), Some(EntityKind::Projectile));
    assert_eq!(classify(&reg, 999), None);
}

#[test]
fn motion_updates_keep_attributes() {
    let mut reg = Registry::new();
    spawn_asteroid(&mut reg, v(0, 0), v(0, 0), 0, 500);
    let id = reg.asteroids[0].id;
    let found = set_entity_motion(&mut reg, id, v(7, 8), v(9, 10), 11);
    assert!(found);
    assert_eq!(reg.asteroids[0].pos, v(7, 8));
    assert_eq!(reg.asteroids[0].vel, v(9, 10));
    assert_eq!(reg.asteroids[0].angvel, 11);
    assert_eq!(reg.asteroids[0].scale, 500);
    assert_eq!(reg.asteroids[0].score, 2);
    assert!(!set_entity_motion(&mut reg, 42, v(0, 0), v(0, 0), 0));
}

#[test]
fn find_asteroid_reports_index() {
    let mut reg = Registry::new();
    spawn_asteroid(&mut reg, v(0, 0), v(0, 0), 0, 400);
    spawn_asteroid(&mut reg, v(1, 1), v(0, 0), 0, 400);
    assert_eq!(find_asteroid(&reg, reg.asteroids[1].id), Some(1));
    assert_eq!(find_asteroid(&reg, 12345), None);
}

#[test]
fn setup_player_installs_singleton_at_rest() {
    let mut reg = Registry::new();
    setup_player(&mut reg);
    let p = reg.player.as_ref().unwrap();
    assert_eq!(p.pos, v(0, 0));
    assert_eq!(p.vel, v(0, 0));
    assert_eq!(p.angvel, 0);
    assert_eq!(reg.next_id, 1);
}
