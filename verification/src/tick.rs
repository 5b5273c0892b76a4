//! One simulation frame: a fixed-order pass of every gameplay system —
//! player control and wrap-around, boundary culling and scheduled spawning,
//! projectile lifecycle, the weapon, and finally the collision resolver over
//! the physics events this tick delivered.

use vstd::prelude::*;

use crate::asteroids::{
    manage_asteroids, manage_asteroids_spec, spawn_draw_wf, timer_wf, SpawnDraw, SpawnTimer,
    DELTA_LIMIT_MS,
};
use crate::collisions::{
    fragment_draw_wf_all, resolve_collisions, resolve_events_spec, session_inv, CollisionEvent,
    Stats,
};
use crate::fragmentation::{fragment_draw_wf, FragmentDraw};
use crate::game_state::GameState;
use crate::geometry::{bounds_wf, dir_wf, Bounds, Vec2I};
use crate::player::{
    control_player, control_player_spec, keep_player, keep_player_spec, TurnInput,
};
use crate::registry::{reg_wf, Registry, RegistryView};
use crate::shooting::{manage_projectiles, manage_projectiles_spec, shoot, shoot_spec, ProjectilesData};

verus! {

/// The input edges and levels one tick reacts to, as the input collaborator
/// reports them: the steering direction, whether thrust is held, the ship's
/// forward unit vector (milli-units), the edge-triggered fire signal, and
/// the session clock.
#[derive(Clone, Copy, PartialEq, Eq, Structural, Debug)]
pub struct TickInput {
    pub turn: TurnInput,
    pub thrust: bool,
    pub dir: Vec2I,
    pub fire: bool,
    pub now_ms: u64,
}

/// What one whole frame does, as the composition of the per-system rules in
/// their fixed order.
pub open spec fn tick_spec(
    v: RegistryView,
    timer: SpawnTimer,
    data: ProjectilesData,
    st: Stats,
    gs: GameState,
    bounds: Bounds,
    delta_ms: u64,
    input: TickInput,
    sd: SpawnDraw,
    events: Seq<CollisionEvent>,
    fds: Seq<FragmentDraw>,
) -> (RegistryView, SpawnTimer, ProjectilesData, Stats, GameState) {
    let v1 = control_player_spec(v, delta_ms, input.turn, input.thrust, input.dir);
    let v2 = keep_player_spec(v1, bounds);
    let ma = manage_asteroids_spec(v2, timer, bounds, delta_ms, sd);
    let v4 = manage_projectiles_spec(ma.0, bounds);
    let sh = shoot_spec(v4, data, input.now_ms, input.fire, input.dir);
    let r = resolve_events_spec(sh.0, st, gs, events, fds);
    (r.0, ma.1, sh.1, r.1, r.2)
}

/// Run one frame, with every random choice handed in as plain values.
pub fn run_tick(
    reg: &mut Registry,
    timer: &mut SpawnTimer,
    data: &mut ProjectilesData,
    stats: &mut Stats,
    gs: &mut GameState,
    bounds: Bounds,
    delta_ms: u64,
    input: TickInput,
    spawn_draw: SpawnDraw,
    events: &Vec<CollisionEvent>,
    frag_draws: &Vec<FragmentDraw>,
)
    requires
        reg_wf(old(reg)@),
        timer_wf(*old(timer)),
        session_inv(*old(stats), *old(gs)),
        bounds_wf(bounds),
        delta_ms <= DELTA_LIMIT_MS,
        dir_wf(input.dir),
        spawn_draw_wf(spawn_draw, bounds),
        frag_draws@.len() == events@.len(),
        forall|k: int| 0 <= k < frag_draws@.len() ==> fragment_draw_wf(#[trigger] frag_draws@[k]),
    ensures
        (final(reg)@, *final(timer), *final(data), *final(stats), *final(gs)) == tick_spec(
            old(reg)@,
            *old(timer),
            *old(data),
            *old(stats),
            *old(gs),
            bounds,
            delta_ms,
            input,
            spawn_draw,
            events@,
            frag_draws@,
        ),
        reg_wf(final(reg)@),
        timer_wf(*final(timer)),
        session_inv(*final(stats), *final(gs)),
{
    control_player(reg, delta_ms, input.turn, input.thrust, input.dir);
    keep_player(reg, bounds);
    manage_asteroids(reg, timer, bounds, delta_ms, spawn_draw);
    manage_projectiles(reg, bounds);
    shoot(reg, data, input.now_ms, input.fire, input.dir);
    resolve_collisions(reg, stats, gs, events, frag_draws);
}

/// Run one frame, drawing the spawn and fragmentation randomness from the
/// random source. Some pair of well-formed draws governs the outcome.
pub fn run_tick_random(
    reg: &mut Registry,
    timer: &mut SpawnTimer,
    data: &mut ProjectilesData,
    stats: &mut Stats,
    gs: &mut GameState,
    bounds: Bounds,
    delta_ms: u64,
    input: TickInput,
    events: &Vec<CollisionEvent>,
)
    requires
        reg_wf(old(reg)@),
        timer_wf(*old(timer)),
        session_inv(*old(stats), *old(gs)),
        bounds_wf(bounds),
        delta_ms <= DELTA_LIMIT_MS,
        dir_wf(input.dir),
    ensures
        exists|sd: SpawnDraw, fds: Seq<FragmentDraw>|
            {
                &&& spawn_draw_wf(sd, bounds)
                &&& fds.len() == events@.len()
                &&& fragment_draw_wf_all(fds)
                &&& (final(reg)@, *final(timer), *final(data), *final(stats), *final(gs))
                    == tick_spec(
                    old(reg)@,
                    *old(timer),
                    *old(data),
                    *old(stats),
                    *old(gs),
                    bounds,
                    delta_ms,
                    input,
                    sd,
                    events@,
                    fds,
                )
            },
        reg_wf(final(reg)@),
        timer_wf(*final(timer)),
        session_inv(*final(stats), *final(gs)),
{
    let sd = crate::rng::draw_spawn(bounds);
    let n = events.len();
    let mut draws: Vec<FragmentDraw> = Vec::new();
    let mut i: usize = 0;
    while i < n
        invariant
            i <= n,
            draws@.len() == i,
            forall|k: int| 0 <= k < draws@.len() ==> fragment_draw_wf(#[trigger] draws@[k]),
        decreases n - i,
    {
        let d = crate::rng::draw_fragment();
        draws.push(d);
        i += 1;
    }
    run_tick(reg, timer, data, stats, gs, bounds, delta_ms, input, sd, events, &draws);
}

} // verus!
