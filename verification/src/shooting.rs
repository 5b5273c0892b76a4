//! Projectiles: their per-entity state, the fire-rate tracker, and the
//! drag-decay rule that expires a shot.

use vstd::prelude::*;

use crate::geometry::{
    bounds_wf, clamp_exec, clamp_val, dir_wf, in_bounds, vec2_in_bounds, vec2_wf, Bounds, Vec2I,
    VAL_LIMIT,
};
use crate::registry::{
    lemma_filter_projectiles_wf, reg_wf, spawn_projectile, spawn_projectile_spec, Registry,
    RegistryView,
};
use crate::seq_helpers::{lemma_filter_membership, lemma_filter_step};

verus! {

/// Muzzle speed in whole units per second.
pub const SHOOT_STRENGTH: i64 = 200;

/// Minimum time between two shots, in milliseconds.
pub const MAX_SHOOT_DELTA_MS: u64 = 200;

/// A projectile. `initial_velocity` is captured at creation and immutable;
/// the drag-decay rule compares the current velocity against it.
#[derive(Clone, Copy, PartialEq, Eq, Structural, Debug)]
pub struct Projectile {
    pub id: u64,
    pub pos: Vec2I,
    pub vel: Vec2I,
    pub initial_velocity: Vec2I,
}

pub open spec fn projectile_wf(p: Projectile) -> bool {
    &&& vec2_wf(p.pos)
    &&& vec2_wf(p.vel)
    &&& vec2_wf(p.initial_velocity)
}

/// Weapon bookkeeping: when the last shot left, in milliseconds of elapsed
/// session time.
#[derive(Clone, Copy, PartialEq, Eq, Structural, Debug)]
pub struct ProjectilesData {
    pub last_shoot: u64,
}

pub open spec fn abs_i(x: int) -> int {
    if x >= 0 {
        x
    } else {
        -x
    }
}

/// A projectile has decayed when, on either axis, its current speed has
/// fallen strictly below 80% of the magnitude of its initial velocity on that
/// axis. The comparison is exact: 4 times the initial magnitude against 5
/// times the current one.
pub open spec fn decayed(p: Projectile) -> bool {
    ||| 4 * abs_i(p.initial_velocity.x as int) > 5 * abs_i(p.vel.x as int)
    ||| 4 * abs_i(p.initial_velocity.y as int) > 5 * abs_i(p.vel.y as int)
}

pub fn abs_exec(x: i64) -> (r: i64)
    requires
        -VAL_LIMIT <= x <= VAL_LIMIT,
    ensures
        r == abs_i(x as int),
{
    if x >= 0 {
        x
    } else {
        -x
    }
}

pub fn is_decayed(p: &Projectile) -> (r: bool)
    requires
        projectile_wf(*p),
    ensures
        r == decayed(*p),
{
    let ix = abs_exec(p.initial_velocity.x);
    let iy = abs_exec(p.initial_velocity.y);
    let vx = abs_exec(p.vel.x);
    let vy = abs_exec(p.vel.y);
    4 * ix > 5 * vx || 4 * iy > 5 * vy
}

/// Keep the projectiles that are still inside the playfield.
pub open spec fn proj_in_bounds(b: Bounds) -> spec_fn(Projectile) -> bool {
    |p: Projectile| in_bounds(p.pos, b)
}

/// Keep the projectiles that have not decayed.
pub open spec fn proj_alive() -> spec_fn(Projectile) -> bool {
    |p: Projectile| !decayed(p)
}

/// The per-tick projectile pass: the boundary cull removes exactly those
/// outside the half-extents, then the drag-decay rule removes exactly those
/// whose speed has fallen below 80% of their initial speed on either axis.
pub open spec fn manage_projectiles_spec(v: RegistryView, b: Bounds) -> RegistryView {
    RegistryView {
        projectiles: v.projectiles.filter(proj_in_bounds(b)).filter(proj_alive()),
        ..v
    }
}

/// One tick of the projectile lifecycle: boundary culling, then drag-decay
/// expiry.
pub fn manage_projectiles(reg: &mut Registry, bounds: Bounds)
    requires
        reg_wf(old(reg)@),
        bounds_wf(bounds),
    ensures
        final(reg)@ == manage_projectiles_spec(old(reg)@, bounds),
        reg_wf(final(reg)@),
{
    let ghost v0 = reg@;
    let n = reg.projectiles.len();
    let mut kept: Vec<Projectile> = Vec::new();
    let mut i: usize = 0;
    while i < n
        invariant
            i <= n,
            n == reg.projectiles.len(),
            reg.projectiles@ == v0.projectiles,
            bounds_wf(bounds),
            kept@ == v0.projectiles.subrange(0, i as int).filter(proj_in_bounds(bounds)),
        decreases n - i,
    {
        proof {
            lemma_filter_step(v0.projectiles, proj_in_bounds(bounds), i as int);
        }
        let p = reg.projectiles[i];
        if vec2_in_bounds(p.pos, bounds) {
            kept.push(p);
        }
        i += 1;
    }
    proof {
        assert(v0.projectiles.subrange(0, n as int) =~= v0.projectiles);
    }
    reg.projectiles = kept;
    proof {
        assert(reg@ =~= RegistryView {
            projectiles: v0.projectiles.filter(proj_in_bounds(bounds)),
            ..v0
        });
        lemma_filter_projectiles_wf(v0, proj_in_bounds(bounds));
    }
    let ghost v1 = reg@;
    let m = reg.projectiles.len();
    let mut alive: Vec<Projectile> = Vec::new();
    let mut j: usize = 0;
    while j < m
        invariant
            j <= m,
            m == reg.projectiles.len(),
            reg.projectiles@ == v1.projectiles,
            reg_wf(v1),
            alive@ == v1.projectiles.subrange(0, j as int).filter(proj_alive()),
        decreases m - j,
    {
        proof {
            lemma_filter_step(v1.projectiles, proj_alive(), j as int);
            assert(projectile_wf(v1.projectiles[j as int]));
        }
        let p = reg.projectiles[j];
        if !is_decayed(&p) {
            alive.push(p);
        }
        j += 1;
    }
    proof {
        assert(v1.projectiles.subrange(0, m as int) =~= v1.projectiles);
    }
    reg.projectiles = alive;
    proof {
        assert(reg@ =~= manage_projectiles_spec(v0, bounds));
        lemma_filter_projectiles_wf(v1, proj_alive());
        assert(reg_wf(reg@));
    }
}

/// The weapon rule: on an edge-triggered fire request, with a live player
/// and the rate limit elapsed (and an id still available), a projectile
/// leaves the ship; its velocity is the forward direction scaled by the
/// muzzle speed plus the ship's own velocity, clamped into the fixed-point
/// range, and is recorded as both current and initial velocity.
pub open spec fn shoot_spec(
    v: RegistryView,
    data: ProjectilesData,
    now_ms: u64,
    fire: bool,
    dir: Vec2I,
) -> (RegistryView, ProjectilesData) {
    if fire && v.player is Some && now_ms > data.last_shoot + MAX_SHOOT_DELTA_MS && v.next_id
        < u64::MAX {
        let p = v.player.unwrap();
        let vel = Vec2I {
            x: clamp_val(dir.x * SHOOT_STRENGTH + p.vel.x) as i64,
            y: clamp_val(dir.y * SHOOT_STRENGTH + p.vel.y) as i64,
        };
        (spawn_projectile_spec(v, p.pos, vel), ProjectilesData { last_shoot: now_ms })
    } else {
        (v, data)
    }
}

/// React to a fire request. Rate limiting is purely time-based: a shot is
/// taken only when more than the minimum interval has passed since the last
/// one. With no player the request is silently skipped.
pub fn shoot(
    reg: &mut Registry,
    data: &mut ProjectilesData,
    now_ms: u64,
    fire: bool,
    dir: Vec2I,
)
    requires
        reg_wf(old(reg)@),
        dir_wf(dir),
    ensures
        (final(reg)@, *final(data)) == shoot_spec(old(reg)@, *old(data), now_ms, fire, dir),
        reg_wf(final(reg)@),
{
    let has_player = reg.player.is_some();
    if fire && has_player && now_ms > MAX_SHOOT_DELTA_MS && now_ms - MAX_SHOOT_DELTA_MS
        > data.last_shoot && reg.next_id < u64::MAX {
        let (ppos, pvel) = match &reg.player {
            Some(p) => (p.pos, p.vel),
            None => {
                proof {
                    assert(false);
                }
                vstd::pervasive::unreached()
            },
        };
        let vel = Vec2I {
            x: clamp_exec(dir.x * SHOOT_STRENGTH + pvel.x),
            y: clamp_exec(dir.y * SHOOT_STRENGTH + pvel.y),
        };
        spawn_projectile(reg, ppos, vel);
        data.last_shoot = now_ms;
    }
}

/// The projectile cull keeps exactly the projectiles inside the playfield:
/// one exactly on the edge stays; one a single milli-unit past it is
/// removed. The decay pass then keeps exactly those still at 80% or more of
/// their initial speed on both axes.
pub proof fn lemma_projectile_lifecycle(v: RegistryView, b: Bounds, p: Projectile)
    requires
        bounds_wf(b),
    ensures
        manage_projectiles_spec(v, b).projectiles.contains(p) <==> (v.projectiles.contains(p)
            && in_bounds(p.pos, b) && !decayed(p)),
        p.pos.x == b.half_width && -b.half_height <= p.pos.y <= b.half_height ==> in_bounds(
            p.pos,
            b,
        ),
        p.pos.x == b.half_width + 1 ==> !in_bounds(p.pos, b),
{
    lemma_filter_membership(v.projectiles, proj_in_bounds(b), p);
    lemma_filter_membership(v.projectiles.filter(proj_in_bounds(b)), proj_alive(), p);
}

} // verus!
