//! The collision resolver and the session-wide score/health tracker. The
//! resolver consumes collision-start events from the physics collaborator,
//! classifies the two participants, and applies the projectile-asteroid and
//! player-asteroid rules; all side effects land synchronously, within the
//! tick that delivered the event.

use vstd::prelude::*;

use crate::fragmentation::{
    child_scale_1, child_scale_2, child_scales, child_velocity, child_velocity_exec,
    fragment_draw_wf, fragments_ok, FragmentDraw,
};
use crate::game_state::GameState;
use crate::registry::{
    asteroid_with, despawn, find_asteroid, find_projectile, kind_of,
    projectile_with, reg_wf, remove_id, spawn_asteroid, spawn_asteroid_spec, EntityKind, Registry,
    RegistryView,
};
use crate::asteroids::SCALE_MIN;
use crate::geometry::Vec2I;

verus! {

/// Health a fresh session starts with, in milli-units (3.0).
pub const HEALTH_START: i64 = 3000;

/// Health lost on one player-asteroid collision, in milli-units (1.0).
pub const HIT_DAMAGE: i64 = 1000;

/// The session-wide score/health pair. It is mutated only by the collision
/// resolver and reset only by the restart path; it survives entity despawn
/// and respawn.
#[derive(Clone, Copy, PartialEq, Eq, Structural, Debug)]
pub struct Stats {
    pub score: u32,
    pub health: i64,
}

impl Stats {
    /// A fresh session: no score, full health.
    pub fn new() -> (st: Stats)
        ensures
            st == (Stats { score: 0, health: HEALTH_START }),
    {
        Stats { score: 0, health: HEALTH_START }
    }
}

/// The session invariant: health never exceeds its starting value, never
/// falls more than one hit below zero, and is positive whenever the game is
/// still running — once it reaches zero or below the state machine is in
/// GameOver and blocks all further gameplay mutation until a restart.
pub open spec fn session_inv(st: Stats, gs: GameState) -> bool {
    &&& st.health <= HEALTH_START
    &&& st.health > -HIT_DAMAGE
    &&& gs is InGame ==> st.health > 0
}

/// A physics collision event; only `Started` events drive the resolver.
#[derive(Clone, Copy, PartialEq, Eq, Structural, Debug)]
pub enum CollisionEvent {
    Started(u64, u64),
    Stopped(u64, u64),
}

/// Every draw in a sequence is well-formed.
pub open spec fn fragment_draw_wf_all(ds: Seq<FragmentDraw>) -> bool {
    forall|k: int| 0 <= k < ds.len() ==> fragment_draw_wf(#[trigger] ds[k])
}

/// Score addition saturates at the counter's capacity; it never decreases.
pub open spec fn sat_add_u32(a: u32, b: u32) -> u32 {
    if a + b > u32::MAX {
        u32::MAX
    } else {
        (a + b) as u32
    }
}

/// One player-asteroid hit: health falls by exactly one unit, and the
/// game-over transition fires the instant health first reaches zero or
/// below. Neither entity is despawned by this rule.
pub open spec fn player_hit_step(st: Stats, gs: GameState) -> (Stats, GameState) {
    let h = (st.health - HIT_DAMAGE) as i64;
    (Stats { score: st.score, health: h }, if h <= 0 {
        GameState::GameOver
    } else {
        gs
    })
}

/// The registry after fragmenting a destroyed asteroid of the given scale at
/// the given position: either both children (when both stay at or above the
/// minimum scale and two fresh ids are available) or none.
pub open spec fn frag_children_spec(
    v: RegistryView,
    pos: Vec2I,
    impact: Vec2I,
    scale: u32,
    d: FragmentDraw,
) -> RegistryView {
    if fragments_ok(scale as int, d.ratio as int) && v.next_id + 2 <= u64::MAX {
        let s1 = child_scale_1(scale as int, d.ratio as int) as u32;
        let s2 = child_scale_2(scale as int, d.ratio as int) as u32;
        let v1 = spawn_asteroid_spec(v, pos, child_velocity(impact, d.sep1), 0, s1);
        spawn_asteroid_spec(v1, pos, child_velocity(impact, d.sep2), 0, s2)
    } else {
        v
    }
}

/// Whether the two classifications form the projectile-asteroid pattern, in
/// either order.
pub open spec fn is_proj_ast(k1: Option<EntityKind>, k2: Option<EntityKind>) -> bool {
    ||| (k1 == Some(EntityKind::Projectile) && k2 == Some(EntityKind::Asteroid))
    ||| (k1 == Some(EntityKind::Asteroid) && k2 == Some(EntityKind::Projectile))
}

/// Whether the two classifications form the player-asteroid pattern, in
/// either order.
pub open spec fn is_player_ast(k1: Option<EntityKind>, k2: Option<EntityKind>) -> bool {
    ||| (k1 == Some(EntityKind::Player) && k2 == Some(EntityKind::Asteroid))
    ||| (k1 == Some(EntityKind::Asteroid) && k2 == Some(EntityKind::Player))
}

/// What one collision-start event does to the whole simulation state.
///
/// In GameOver nothing moves. A projectile-asteroid pair adds the asteroid's
/// score to the session, despawns the asteroid, fragments it (zero or two
/// children), and despawns the projectile. A player-asteroid pair costs one
/// unit of health and despawns nothing. Any other pair is ignored. An id
/// already despawned earlier in the tick no longer classifies, so a repeated
/// event for it falls through to the ignored case.
pub open spec fn resolve_start_spec(
    v: RegistryView,
    st: Stats,
    gs: GameState,
    e1: u64,
    e2: u64,
    d: FragmentDraw,
) -> (RegistryView, Stats, GameState) {
    if gs is GameOver {
        (v, st, gs)
    } else {
        let k1 = kind_of(v, e1);
        let k2 = kind_of(v, e2);
        if is_proj_ast(k1, k2) {
            let aid = if k1 == Some(EntityKind::Asteroid) {
                e1
            } else {
                e2
            };
            let pid = if k1 == Some(EntityKind::Projectile) {
                e1
            } else {
                e2
            };
            let ast = asteroid_with(v, aid);
            let impact = projectile_with(v, pid).vel;
            let st1 = Stats { score: sat_add_u32(st.score, ast.score), health: st.health };
            let v1 = remove_id(v, aid);
            let v2 = frag_children_spec(v1, ast.pos, impact, ast.scale, d);
            let v3 = remove_id(v2, pid);
            (v3, st1, gs)
        } else if is_player_ast(k1, k2) {
            let r = player_hit_step(st, gs);
            (v, r.0, r.1)
        } else {
            (v, st, gs)
        }
    }
}

/// What one event of any kind does: only collision-start events act.
pub open spec fn resolve_event_spec(
    v: RegistryView,
    st: Stats,
    gs: GameState,
    e: CollisionEvent,
    d: FragmentDraw,
) -> (RegistryView, Stats, GameState) {
    match e {
        CollisionEvent::Started(e1, e2) => resolve_start_spec(v, st, gs, e1, e2, d),
        CollisionEvent::Stopped(_, _) => (v, st, gs),
    }
}

/// A whole tick's worth of events, applied in order.
pub open spec fn resolve_events_spec(
    v: RegistryView,
    st: Stats,
    gs: GameState,
    events: Seq<CollisionEvent>,
    draws: Seq<FragmentDraw>,
) -> (RegistryView, Stats, GameState)
    decreases events.len(),
{
    if events.len() == 0 {
        (v, st, gs)
    } else {
        let r = resolve_events_spec(v, st, gs, events.drop_last(), draws.drop_last());
        resolve_event_spec(r.0, r.1, r.2, events.last(), draws.last())
    }
}

/// Resolve one collision-start event, with the fragmentation randomness
/// handed in as plain values.
pub fn resolve_collision(
    reg: &mut Registry,
    stats: &mut Stats,
    gs: &mut GameState,
    e1: u64,
    e2: u64,
    d: FragmentDraw,
)
    requires
        reg_wf(old(reg)@),
        session_inv(*old(stats), *old(gs)),
        fragment_draw_wf(d),
    ensures
        (final(reg)@, *final(stats), *final(gs)) == resolve_start_spec(
            old(reg)@,
            *old(stats),
            *old(gs),
            e1,
            e2,
            d,
        ),
        reg_wf(final(reg)@),
        session_inv(*final(stats), *final(gs)),
{
    let ghost v0 = reg@;
    let ghost st0 = *stats;
    let ghost gs0 = *gs;
    if *gs == GameState::GameOver {
        return ;
    }
    let k1 = crate::registry::classify(reg, e1);
    let k2 = crate::registry::classify(reg, e2);
    let mut aid: u64 = 0;
    let mut pid: u64 = 0;
    let mut pa = false;
    let mut player_hit = false;
    match (k1, k2) {
        (Some(EntityKind::Projectile), Some(EntityKind::Asteroid)) => {
            aid = e2;
            pid = e1;
            pa = true;
        },
        (Some(EntityKind::Asteroid), Some(EntityKind::Projectile)) => {
            aid = e1;
            pid = e2;
            pa = true;
        },
        (Some(EntityKind::Player), Some(EntityKind::Asteroid)) => {
            player_hit = true;
        },
        (Some(EntityKind::Asteroid), Some(EntityKind::Player)) => {
            player_hit = true;
        },
        _ => {},
    }
    if pa {
        let ast = match find_asteroid(reg, aid) {
            Some(i) => reg.asteroids[i],
            None => {
                proof {
                    assert(false);
                }
                vstd::pervasive::unreached()
            },
        };
        let impact = match find_projectile(reg, pid) {
            Some(j) => reg.projectiles[j].vel,
            None => {
                proof {
                    assert(false);
                }
                vstd::pervasive::unreached()
            },
        };
        if stats.score <= u32::MAX - ast.score {
            stats.score = stats.score + ast.score;
        } else {
            stats.score = u32::MAX;
        }
        despawn(reg, aid);
        let ghost v1 = reg@;
        let scales = child_scales(ast.scale, d.ratio);
        if scales.0 >= SCALE_MIN && scales.1 >= SCALE_MIN && reg.next_id <= u64::MAX - 2 {
            let cv1 = child_velocity_exec(impact, d.sep1);
            let cv2 = child_velocity_exec(impact, d.sep2);
            spawn_asteroid(reg, ast.pos, cv1, 0, scales.0);
            spawn_asteroid(reg, ast.pos, cv2, 0, scales.1);
        }
        proof {
            assert(reg@ =~= frag_children_spec(v1, ast.pos, impact, ast.scale, d));
        }
        despawn(reg, pid);
        proof {
            let expect = resolve_start_spec(v0, st0, gs0, e1, e2, d);
            assert(reg@ =~= expect.0);
            assert(*stats == expect.1);
            assert(*gs == expect.2);
        }
    } else if player_hit {
        stats.health = stats.health - HIT_DAMAGE;
        if stats.health <= 0 {
            *gs = GameState::GameOver;
        }
        proof {
            let expect = resolve_start_spec(v0, st0, gs0, e1, e2, d);
            assert(*stats == expect.1);
            assert(*gs == expect.2);
        }
    }
}

/// Resolve a whole tick's worth of events in order, with the randomness of
/// each potential fragmentation handed in as plain values.
pub fn resolve_collisions(
    reg: &mut Registry,
    stats: &mut Stats,
    gs: &mut GameState,
    events: &Vec<CollisionEvent>,
    draws: &Vec<FragmentDraw>,
)
    requires
        reg_wf(old(reg)@),
        session_inv(*old(stats), *old(gs)),
        draws@.len() == events@.len(),
        forall|k: int| 0 <= k < draws@.len() ==> fragment_draw_wf(#[trigger] draws@[k]),
    ensures
        (final(reg)@, *final(stats), *final(gs)) == resolve_events_spec(
            old(reg)@,
            *old(stats),
            *old(gs),
            events@,
            draws@,
        ),
        reg_wf(final(reg)@),
        session_inv(*final(stats), *final(gs)),
{
    let ghost v0 = reg@;
    let ghost st0 = *stats;
    let ghost gs0 = *gs;
    let n = events.len();
    let mut i: usize = 0;
    while i < n
        invariant
            i <= n,
            n == events@.len(),
            draws@.len() == events@.len(),
            forall|k: int| 0 <= k < draws@.len() ==> fragment_draw_wf(#[trigger] draws@[k]),
            reg_wf(reg@),
            session_inv(*stats, *gs),
            (reg@, *stats, *gs) == resolve_events_spec(
                v0,
                st0,
                gs0,
                events@.take(i as int),
                draws@.take(i as int),
            ),
        decreases n - i,
    {
        let ev = events[i];
        match ev {
            CollisionEvent::Started(e1, e2) => {
                resolve_collision(reg, stats, gs, e1, e2, draws[i]);
            },
            CollisionEvent::Stopped(_, _) => {},
        }
        proof {
            assert(events@.take(i + 1).drop_last() =~= events@.take(i as int));
            assert(draws@.take(i + 1).drop_last() =~= draws@.take(i as int));
            assert(events@.take(i + 1).last() == ev);
            assert(draws@.take(i + 1).last() == draws@[i as int]);
        }
        i += 1;
    }
    proof {
        assert(events@.take(n as int) =~= events@);
        assert(draws@.take(n as int) =~= draws@);
    }
}

/// The collision system as one tick runs it: it draws the randomness of each
/// potential fragmentation itself, then resolves the events in order. Some
/// sequence of well-formed draws governs the outcome.
pub fn collision_system(
    reg: &mut Registry,
    stats: &mut Stats,
    gs: &mut GameState,
    events: &Vec<CollisionEvent>,
)
    requires
        reg_wf(old(reg)@),
        session_inv(*old(stats), *old(gs)),
    ensures
        exists|ds: Seq<FragmentDraw>|
            {
                &&& ds.len() == events@.len()
                &&& (forall|k: int| 0 <= k < ds.len() ==> fragment_draw_wf(#[trigger] ds[k]))
                &&& (final(reg)@, *final(stats), *final(gs)) == resolve_events_spec(
                    old(reg)@,
                    *old(stats),
                    *old(gs),
                    events@,
                    ds,
                )
            },
        reg_wf(final(reg)@),
        session_inv(*final(stats), *final(gs)),
{
    let n = events.len();
    let mut draws: Vec<FragmentDraw> = Vec::new();
    let mut i: usize = 0;
    while i < n
        invariant
            i <= n,
            draws@.len() == i,
            forall|k: int| 0 <= k < draws@.len() ==> fragment_draw_wf(#[trigger] draws@[k]),
        decreases n - i,
    {
        let d = crate::rng::draw_fragment();
        draws.push(d);
        i += 1;
    }
    resolve_collisions(reg, stats, gs, events, &draws);
}

/// A projectile-asteroid hit removes exactly the one asteroid and spawns
/// zero or two children, never one: the registry ends with either one
/// asteroid fewer or one more than before.
pub proof fn lemma_children_zero_or_two(
    v: RegistryView,
    st: Stats,
    gs: GameState,
    e1: u64,
    e2: u64,
    d: FragmentDraw,
)
    requires
        reg_wf(v),
        gs is InGame,
        is_proj_ast(kind_of(v, e1), kind_of(v, e2)),
    ensures
        ({
            let r = resolve_start_spec(v, st, gs, e1, e2, d);
            r.0.asteroids.len() == v.asteroids.len() - 1 || r.0.asteroids.len() == v.asteroids.len()
                + 1
        }),
{
    let aid = if kind_of(v, e1) == Some(EntityKind::Asteroid) {
        e1
    } else {
        e2
    };
    let pid = if kind_of(v, e1) == Some(EntityKind::Projectile) {
        e1
    } else {
        e2
    };
    let ast = asteroid_with(v, aid);
    let at = crate::registry::asteroid_index(v, aid);
    assert forall|j: int|
        0 <= j < v.asteroids.len() && j != at implies crate::registry::ast_keep(aid)(
        v.asteroids[j],
    ) by {
        assert(crate::registry::ast_id()(v.asteroids[j]) != crate::registry::ast_id()(
            v.asteroids[at],
        ));
    }
    crate::seq_helpers::lemma_filter_len_remove_one(
        v.asteroids,
        crate::registry::ast_keep(aid),
        at,
    );
    let v1 = remove_id(v, aid);
    let v2 = frag_children_spec(v1, ast.pos, projectile_with(v, pid).vel, ast.scale, d);
    let kp = crate::registry::projectile_index(v, pid);
    assert(v.projectiles[kp].id == pid);
    assert forall|j: int|
        0 <= j < v2.asteroids.len() implies crate::registry::ast_keep(pid)(v2.asteroids[j]) by {
        if j < v1.asteroids.len() {
            crate::seq_helpers::lemma_filter_source(
                v.asteroids,
                crate::registry::ast_keep(aid),
                v1.asteroids[j],
            );
            let k = choose|k: int| 0 <= k < v.asteroids.len() && v.asteroids[k] == v1.asteroids[j];
            assert(v.asteroids[k].id != v.projectiles[kp].id);
        } else {
            assert(v2.asteroids[j].id >= v1.next_id);
        }
    }
    crate::seq_helpers::lemma_filter_all(v2.asteroids, crate::registry::ast_keep(pid));
}

/// In the game-over state, a collision event mutates nothing: health, score,
/// registry and state machine are all frozen until a restart.
pub proof fn lemma_game_over_frozen(
    v: RegistryView,
    st: Stats,
    gs: GameState,
    e1: u64,
    e2: u64,
    d: FragmentDraw,
)
    requires
        gs is GameOver,
    ensures
        resolve_start_spec(v, st, gs, e1, e2, d) == (v, st, gs),
{
}

/// A player-asteroid collision event, while in play, is exactly one health
/// hit: score and registry are untouched, health falls by exactly one unit,
/// and the game ends exactly when health reaches zero or below.
pub proof fn lemma_resolver_player_hit(
    v: RegistryView,
    st: Stats,
    gs: GameState,
    e1: u64,
    e2: u64,
    d: FragmentDraw,
)
    requires
        gs is InGame,
        session_inv(st, gs),
        is_player_ast(kind_of(v, e1), kind_of(v, e2)),
    ensures
        resolve_start_spec(v, st, gs, e1, e2, d) == ({
            let r = player_hit_step(st, gs);
            (v, r.0, r.1)
        }),
        resolve_start_spec(v, st, gs, e1, e2, d).1.health == st.health - HIT_DAMAGE,
        resolve_start_spec(v, st, gs, e1, e2, d).2 is GameOver <==> st.health - HIT_DAMAGE <= 0,
{
    assert(!is_proj_ast(kind_of(v, e1), kind_of(v, e2)));
}

/// Over any single event the session's score never decreases and its health
/// never increases: score moves only up (by a destroyed asteroid's score)
/// and health only down (by collisions with the player).
pub proof fn lemma_session_monotone(
    v: RegistryView,
    st: Stats,
    gs: GameState,
    e1: u64,
    e2: u64,
    d: FragmentDraw,
)
    requires
        session_inv(st, gs),
    ensures
        ({
            let r = resolve_start_spec(v, st, gs, e1, e2, d);
            r.1.score >= st.score && r.1.health <= st.health
        }),
{
}

/// Iterated player-asteroid collision events, as the resolver applies them.
pub open spec fn player_hits(st: Stats, gs: GameState, n: nat) -> (Stats, GameState)
    decreases n,
{
    if n == 0 {
        (st, gs)
    } else {
        let r = player_hits(st, gs, (n - 1) as nat);
        if r.1 is InGame {
            player_hit_step(r.0, r.1)
        } else {
            r
        }
    }
}

/// The same events, folded through the resolver itself.
pub open spec fn resolve_repeat(
    v: RegistryView,
    st: Stats,
    gs: GameState,
    e1: u64,
    e2: u64,
    d: FragmentDraw,
    n: nat,
) -> (RegistryView, Stats, GameState)
    decreases n,
{
    if n == 0 {
        (v, st, gs)
    } else {
        let r = resolve_repeat(v, st, gs, e1, e2, d, (n - 1) as nat);
        resolve_start_spec(r.0, r.1, r.2, e1, e2, d)
    }
}

/// N successive collision events between the player and an asteroid leave
/// the registry untouched and behave exactly as N iterated health hits.
pub proof fn lemma_resolver_repeat_is_player_hits(
    v: RegistryView,
    st: Stats,
    gs: GameState,
    e1: u64,
    e2: u64,
    d: FragmentDraw,
    n: nat,
)
    requires
        is_player_ast(kind_of(v, e1), kind_of(v, e2)),
    ensures
        ({
            let r = resolve_repeat(v, st, gs, e1, e2, d, n);
            let h = player_hits(st, gs, n);
            r.0 == v && r.1 == h.0 && r.2 == h.1
        }),
    decreases n,
{
    if n > 0 {
        lemma_resolver_repeat_is_player_hits(v, st, gs, e1, e2, d, (n - 1) as nat);
        let r = resolve_repeat(v, st, gs, e1, e2, d, (n - 1) as nat);
        if r.2 is InGame {
            assert(!is_proj_ast(kind_of(v, e1), kind_of(v, e2)));
        }
    }
}

/// From a fresh session, N player-asteroid collisions drain health by
/// exactly one unit each; the game-over transition fires exactly on the
/// third, and from then on health stays frozen at zero until a restart.
pub proof fn lemma_health_monotone(n: nat)
    ensures
        ({
            let r = player_hits(Stats { score: 0, health: HEALTH_START }, GameState::InGame, n);
            &&& n <= 3 ==> r.0.health == HEALTH_START - n * HIT_DAMAGE
            &&& n >= 3 ==> r.0.health == 0 && r.1 is GameOver
            &&& n < 3 ==> r.1 is InGame
            &&& r.0.score == 0
        }),
    decreases n,
{
    if n > 0 {
        lemma_health_monotone((n - 1) as nat);
    }
}

} // verus!
