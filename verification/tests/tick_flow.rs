//! Whole frames: system ordering, scheduled spawning with its rejection coin
//! and population cap, and the randomized frame driver.

use asteroid_sim::asteroids::{init_timer, manage_asteroids, SpawnDraw, ASTEROID_CAP};
use asteroid_sim::collisions::{CollisionEvent, Stats};
use asteroid_sim::fragmentation::FragmentDraw;
use asteroid_sim::game_state::GameState;
use asteroid_sim::geometry::{Bounds, Vec2I};
use asteroid_sim::player::TurnInput;
use asteroid_sim::registry::{setup_player, spawn_asteroid, spawn_projectile, Registry};
use asteroid_sim::shooting::ProjectilesData;
use asteroid_sim::tick::{run_tick, run_tick_random, TickInput};

fn v(x: i64, y: i64) -> Vec2I {
    Vec2I { x, y }
}

fn bounds() -> Bounds {
    Bounds { half_width: 160_000, half_height: 90_000 }
}

fn accept_draw() -> SpawnDraw {
    SpawnDraw { skip: false, pos: v(1000, 2000), scale: 420, vel: v(3000, -3000), angvel: 1000 }
}

#[test]
fn completed_timer_spawns_from_the_draw() {
    let mut reg = Registry::new();
    let mut timer = init_timer();
    manage_asteroids(&mut reg, &mut timer, bounds(), 1000, accept_draw());
    assert_eq!(reg.asteroids.len(), 1);
    let a = &reg.asteroids[0];
    assert_eq!(a.scale, 420);
    assert_eq!(a.score, 3);
    assert_eq!(a.pos, v(1000, 2000));
    assert_eq!(a.vel, v(3000, -3000));
    assert_eq!(a.angvel, 1000);
}

#[test]
fn rejection_coin_skips_the_cycle() {
    let mut reg = Registry::new();
    let mut timer = init_timer();
    let mut d = accept_draw();
    d.skip = true;
    manage_asteroids(&mut reg, &mut timer, bounds(), 1000, d);
    assert_eq!(reg.asteroids.len(), 0);
    // An incomplete timer spawns nothing either.
    manage_asteroids(&mut reg, &mut timer, bounds(), 999, accept_draw());
    assert_eq!(reg.asteroids.len(), 0);
}

#[test]
fn population_cap_skips_scheduled_spawning() {
    let mut reg = Registry::new();
    for _ in 0..ASTEROID_CAP {
        spawn_asteroid(&mut reg, v(0, 0), v(0, 0), 0, 400);
    }
    let mut timer = init_timer();
    manage_asteroids(&mut reg, &mut timer, bounds(), 1000, accept_draw());
    assert_eq!(reg.asteroids.len(), ASTEROID_CAP);
}

#[test]
fn a_frame_runs_the_systems_in_order() {
    let mut reg = Registry::new();
    setup_player(&mut reg);
    // An asteroid far outside is culled this frame, before the spawn.
    spawn_asteroid(&mut reg, v(500_000, 0), v(0, 0), 0, 400);
    // A projectile and a target for it.
    spawn_asteroid(&mut reg, v(0, 0), v(0, 0), 0, 500);
    spawn_projectile(&mut reg, v(0, 0), v(100_000, 0));
    let target = reg.asteroids[1].id;
    let shot = reg.projectiles[0].id;
    let mut timer = init_timer();
    let mut data = ProjectilesData { last_shoot: 0 };
    let mut stats = Stats::new();
    let mut gs = GameState::InGame;
    let input = TickInput {
        turn: TurnInput::Straight,
        thrust: false,
        dir: v(0, 1000),
        fire: false,
        now_ms: 16,
    };
    let events = vec![CollisionEvent::Started(shot, target)];
    let draws = vec![FragmentDraw { ratio: 500, sep1: v(15_000, 0), sep2: v(0, 15_000) }];
    run_tick(
        &mut reg,
        &mut timer,
        &mut data,
        &mut stats,
        &mut gs,
        bounds(),
        16,
        input,
        accept_draw(),
        &events,
        &draws,
    );
    // Culling removed the far asteroid; the collision destroyed the target
    // and split it in two; the projectile is gone; score went up by 2.
    assert_eq!(stats.score, 2);
    assert_eq!(reg.projectiles.len(), 0);
    assert_eq!(reg.asteroids.len(), 2);
    assert!(reg.asteroids.iter().all(|a| a.id != target));
    assert_eq!(gs, GameState::InGame);
}

#[test]
fn the_spawned_asteroid_survives_its_own_frame() {
    // The boundary cull runs before the spawn scheduler, so an asteroid
    // spawned this frame is still there after it.
    let mut reg = Registry::new();
    let mut timer = init_timer();
    let mut data = ProjectilesData { last_shoot: 0 };
    let mut stats = Stats::new();
    let mut gs = GameState::InGame;
    let input = TickInput {
        turn: TurnInput::Straight,
        thrust: false,
        dir: v(0, 1000),
        fire: false,
        now_ms: 1000,
    };
    run_tick(
        &mut reg,
        &mut timer,
        &mut data,
        &mut stats,
        &mut gs,
        bounds(),
        1000,
        input,
        accept_draw(),
        &Vec::new(),
        &Vec::new(),
    );
    assert_eq!(reg.asteroids.len(), 1);
}

#[test]
fn randomized_frames_keep_the_session_sound() {
    let mut reg = Registry::new();
    setup_player(&mut reg);
    let mut timer = init_timer();
    let mut data = ProjectilesData { last_shoot: 0 };
    let mut stats = Stats::new();
    let mut gs = GameState::InGame;
    let mut now: u64 = 0;
    for _ in 0..100 {
        now += 16;
        let input = TickInput {
            turn: TurnInput::Left,
            thrust: true,
            dir: v(0, 1000),
            fire: now % 320 == 0,
            now_ms: now,
        };
        run_tick_random(
            &mut reg,
            &mut timer,
            &mut data,
            &mut stats,
            &mut gs,
            bounds(),
            16,
            input,
            &Vec::new(),
        );
    }
    assert_eq!(gs, GameState::InGame);
    assert_eq!(stats.health, asteroid_sim::collisions::HEALTH_START);
    // A 1.6 s session saw one spawn cycle at most, and some shots.
    assert!(reg.asteroids.len() <= 2);
    assert!(!reg.projectiles.is_empty());
}
