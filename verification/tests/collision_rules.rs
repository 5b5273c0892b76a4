//! The collision resolver: the player-asteroid health rule with its
//! game-over transition, and the projectile-asteroid destruction rule with
//! fragmentation.

use asteroid_sim::collisions::{
    collision_system, resolve_collision, resolve_collisions, CollisionEvent, Stats, HEALTH_START,
};
use asteroid_sim::fragmentation::FragmentDraw;
use asteroid_sim::game_state::GameState;
use asteroid_sim::geometry::Vec2I;
use asteroid_sim::registry::{setup_player, spawn_asteroid, spawn_projectile, Registry};

fn v(x: i64, y: i64) -> Vec2I {
    Vec2I { x, y }
}

fn draw(ratio: u32) -> FragmentDraw {
    FragmentDraw { ratio, sep1: v(15_000, 0), sep2: v(0, -15_000) }
}

#[test]
fn three_player_hits_drain_health_and_end_the_game() {
    let mut reg = Registry::new();
    setup_player(&mut reg);
    spawn_asteroid(&mut reg, v(0, 0), v(0, 0), 0, 400);
    let pid = reg.player.as_ref().unwrap().id;
    let aid = reg.asteroids[0].id;
    let mut stats = Stats::new();
    let mut gs = GameState::InGame;
    assert_eq!(stats.health, HEALTH_START);

    resolve_collision(&mut reg, &mut stats, &mut gs, pid, aid, draw(500));
    assert_eq!(stats.health, 2000);
    assert_eq!(gs, GameState::InGame);

    resolve_collision(&mut reg, &mut stats, &mut gs, aid, pid, draw(500));
    assert_eq!(stats.health, 1000);
    assert_eq!(gs, GameState::InGame);

    resolve_collision(&mut reg, &mut stats, &mut gs, pid, aid, draw(500));
    assert_eq!(stats.health, 0);
    assert_eq!(gs, GameState::GameOver);

    // Frozen after game over: a fourth event changes nothing.
    resolve_collision(&mut reg, &mut stats, &mut gs, pid, aid, draw(500));
    assert_eq!(stats.health, 0);
    assert_eq!(stats.score, 0);
    assert_eq!(gs, GameState::GameOver);
    // Neither entity was despawned by the player rule.
    assert!(reg.player.is_some());
    assert_eq!(reg.asteroids.len(), 1);
}

#[test]
fn projectile_hit_scores_despawns_and_splits_in_two() {
    let mut reg = Registry::new();
    spawn_asteroid(&mut reg, v(10_000, 20_000), v(0, 0), 0, 500);
    spawn_projectile(&mut reg, v(0, 0), v(100_000, 0));
    let aid = reg.asteroids[0].id;
    let jid = reg.projectiles[0].id;
    let mut stats = Stats::new();
    let mut gs = GameState::InGame;

    resolve_collision(&mut reg, &mut stats, &mut gs, jid, aid, draw(500));
    // Scale 0.5 scores floor(-6.667*0.5 + 6) = 2.
    assert_eq!(stats.score, 2);
    assert_eq!(stats.health, HEALTH_START);
    // The parent is gone; the split of 0.5 at ratio 0.5 gives two children.
    assert_eq!(reg.asteroids.len(), 2);
    assert!(reg.asteroids.iter().all(|a| a.id != aid));
    assert_eq!(reg.asteroids[0].scale, 250);
    assert_eq!(reg.asteroids[1].scale, 250);
    // Children inherit 0.3 of the impact velocity plus their own impulse.
    assert_eq!(reg.asteroids[0].vel, v(30_000 + 15_000, 0));
    assert_eq!(reg.asteroids[1].vel, v(30_000, -15_000));
    assert_eq!(reg.asteroids[0].pos, v(10_000, 20_000));
    assert_eq!(reg.asteroids[0].angvel, 0);
    // The projectile is gone too.
    assert_eq!(reg.projectiles.len(), 0);
}

#[test]
fn undersized_children_abort_fragmentation() {
    let mut reg = Registry::new();
    spawn_asteroid(&mut reg, v(0, 0), v(0, 0), 0, 250);
    spawn_projectile(&mut reg, v(0, 0), v(0, 0));
    let aid = reg.asteroids[0].id;
    let jid = reg.projectiles[0].id;
    let mut stats = Stats::new();
    let mut gs = GameState::InGame;
    resolve_collision(&mut reg, &mut stats, &mut gs, aid, jid, draw(500));
    // 0.25 would split into 0.125 + 0.125: both under the minimum, so the
    // asteroid is destroyed with no replacement — zero children, never one.
    assert_eq!(reg.asteroids.len(), 0);
    assert_eq!(reg.projectiles.len(), 0);
    assert_eq!(stats.score, 4);
}

#[test]
fn one_sided_undersized_child_also_aborts() {
    let mut reg = Registry::new();
    spawn_asteroid(&mut reg, v(0, 0), v(0, 0), 0, 400);
    spawn_projectile(&mut reg, v(0, 0), v(0, 0));
    let aid = reg.asteroids[0].id;
    let jid = reg.projectiles[0].id;
    let mut stats = Stats::new();
    let mut gs = GameState::InGame;
    // 0.4 at ratio 0.3 would give 0.12 + 0.28: the small side aborts it.
    resolve_collision(&mut reg, &mut stats, &mut gs, jid, aid, draw(300));
    assert_eq!(reg.asteroids.len(), 0);
}

#[test]
fn duplicate_events_in_one_tick_act_once() {
    let mut reg = Registry::new();
    spawn_asteroid(&mut reg, v(0, 0), v(0, 0), 0, 250);
    spawn_projectile(&mut reg, v(0, 0), v(0, 0));
    let aid = reg.asteroids[0].id;
    let jid = reg.projectiles[0].id;
    let mut stats = Stats::new();
    let mut gs = GameState::InGame;
    let events = vec![
        CollisionEvent::Started(jid, aid),
        CollisionEvent::Started(jid, aid),
        CollisionEvent::Started(aid, jid),
    ];
    let draws = vec![draw(500), draw(500), draw(500)];
    resolve_collisions(&mut reg, &mut stats, &mut gs, &events, &draws);
    // The repeated events refer to entities already despawned: silent no-ops.
    assert_eq!(stats.score, 4);
    assert_eq!(reg.asteroids.len(), 0);
    assert_eq!(reg.projectiles.len(), 0);
}

#[test]
fn stopped_events_and_unmatched_pairs_are_ignored() {
    let mut reg = Registry::new();
    setup_player(&mut reg);
    spawn_projectile(&mut reg, v(0, 0), v(0, 0));
    let pid = reg.player.as_ref().unwrap().id;
    let jid = reg.projectiles[0].id;
    let mut stats = Stats::new();
    let mut gs = GameState::InGame;
    let events = vec![
        CollisionEvent::Stopped(pid, jid),
        CollisionEvent::Started(pid, jid),
        CollisionEvent::Started(pid, pid),
        CollisionEvent::Started(7070, 8080),
    ];
    let draws = vec![draw(500); 4];
    resolve_collisions(&mut reg, &mut stats, &mut gs, &events, &draws);
    assert_eq!(stats.score, 0);
    assert_eq!(stats.health, HEALTH_START);
    assert_eq!(gs, GameState::InGame);
    assert_eq!(reg.projectiles.len(), 1);
}

#[test]
fn score_addition_saturates() {
    let mut reg = Registry::new();
    spawn_asteroid(&mut reg, v(0, 0), v(0, 0), 0, 500);
    spawn_projectile(&mut reg, v(0, 0), v(0, 0));
    let aid = reg.asteroids[0].id;
    let jid = reg.projectiles[0].id;
    let mut stats = Stats { score: u32::MAX - 1, health: HEALTH_START };
    let mut gs = GameState::InGame;
    resolve_collision(&mut reg, &mut stats, &mut gs, jid, aid, draw(500));
    assert_eq!(stats.score, u32::MAX);
}

#[test]
fn collision_system_draws_its_own_randomness() {
    let mut reg = Registry::new();
    spawn_asteroid(&mut reg, v(0, 0), v(0, 0), 0, 500);
    spawn_projectile(&mut reg, v(0, 0), v(50_000, 0));
    let aid = reg.asteroids[0].id;
    let jid = reg.projectiles[0].id;
    let mut stats = Stats::new();
    let mut gs = GameState::InGame;
    let events = vec![CollisionEvent::Started(jid, aid)];
    collision_system(&mut reg, &mut stats, &mut gs, &events);
    assert_eq!(stats.score, 2);
    // Fragmentation of 0.5 yields zero or two children, never one.
    assert!(reg.asteroids.len() == 0 || reg.asteroids.len() == 2);
    assert_eq!(reg.projectiles.len(), 0);
}
