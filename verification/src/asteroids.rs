//! Asteroids: their per-entity state, the scale-to-score formula shared by
//! every creation site, and the repeating spawn timer.

use vstd::prelude::*;

use crate::geometry::{bounds_wf, in_bounds, vec2_in_bounds, vec2_wf, Bounds, Vec2I, VAL_LIMIT};
use crate::registry::{
    lemma_filter_asteroids_wf, reg_wf, spawn_asteroid, spawn_asteroid_spec, Registry, RegistryView,
};
use crate::seq_helpers::{lemma_filter_membership, lemma_filter_step};

verus! {

/// Smallest scale (milli-units) an asteroid in the registry may have; a
/// fragmentation that would produce a smaller child is aborted.
pub const SCALE_MIN: u32 = 150;

/// Lower bound (inclusive) of the scale drawn for a scheduled spawn.
pub const SPAWN_SCALE_LO: u32 = 300;

/// Upper bound (exclusive) of the scale drawn for a scheduled spawn.
pub const SPAWN_SCALE_HI: u32 = 600;

/// Period of the repeating spawn timer, in milliseconds.
pub const SPAWN_PERIOD_MS: u64 = 1000;

/// Largest time step a single tick may advance, in milliseconds (a machine
/// limit of the timer arithmetic, far beyond any real frame).
pub const DELTA_LIMIT_MS: u64 = 1_000_000_000;

/// An asteroid: scale and score (immutable after creation) plus the physical
/// state the physics collaborator reads and writes.
#[derive(Clone, Copy, PartialEq, Eq, Structural, Debug)]
pub struct Asteroid {
    pub id: u64,
    pub scale: u32,
    pub score: u32,
    pub pos: Vec2I,
    pub vel: Vec2I,
    pub angvel: i64,
}

/// Score of an asteroid of the given scale (milli-units): the floored linear
/// map that takes scale 0.3 to score 4 and scale 0.6 to score 2. Scales past
/// the map's zero collapse to 0, since a score is never negative.
pub open spec fn score_of(scale: int) -> int {
    if scale >= 900 {
        0
    } else {
        (900 - scale) / 150
    }
}

pub fn asteroid_score(scale: u32) -> (s: u32)
    ensures
        s == score_of(scale as int),
{
    if scale >= 900 {
        0
    } else {
        (900 - scale) / 150
    }
}

pub open spec fn asteroid_wf(a: Asteroid) -> bool {
    &&& a.scale >= SCALE_MIN
    &&& a.score == score_of(a.scale as int)
    &&& vec2_wf(a.pos)
    &&& vec2_wf(a.vel)
    &&& -VAL_LIMIT <= a.angvel <= VAL_LIMIT
}

/// The score map is monotonically non-increasing over the spawnable scales.
pub proof fn lemma_score_monotone(s1: int, s2: int)
    requires
        SPAWN_SCALE_LO <= s1 <= s2 < SPAWN_SCALE_HI,
    ensures
        score_of(s2) <= score_of(s1),
{
    vstd::arithmetic::div_mod::lemma_div_is_ordered(900 - s2, 900 - s1, 150);
}

/// The score map's values at the ends of the spawnable range: 4 at scale 0.3,
/// 2 just under scale 0.6, and nothing outside 2..=4 in between.
pub proof fn lemma_score_range(s: int)
    requires
        SPAWN_SCALE_LO <= s < SPAWN_SCALE_HI,
    ensures
        2 <= score_of(s) <= 4,
        score_of(SPAWN_SCALE_LO as int) == 4,
        score_of(SPAWN_SCALE_HI - 1) == 2,
{
}

/// The repeating spawn timer: fires each time another full period of
/// simulated time has elapsed.
#[derive(Clone, Copy, PartialEq, Eq, Structural, Debug)]
pub struct SpawnTimer {
    pub period_ms: u64,
    pub elapsed_ms: u64,
}

pub open spec fn timer_wf(t: SpawnTimer) -> bool {
    &&& 0 < t.period_ms <= DELTA_LIMIT_MS
    &&& t.elapsed_ms < t.period_ms
}

/// A fresh one-second repeating spawn timer.
pub fn init_timer() -> (t: SpawnTimer)
    ensures
        t.period_ms == SPAWN_PERIOD_MS,
        t.elapsed_ms == 0,
        timer_wf(t),
{
    SpawnTimer { period_ms: SPAWN_PERIOD_MS, elapsed_ms: 0 }
}

impl SpawnTimer {
    /// Advance the timer; report whether it completed within this step. A
    /// repeating timer keeps the remainder past the period.
    pub fn tick(&mut self, delta_ms: u64) -> (fired: bool)
        requires
            timer_wf(*old(self)),
            delta_ms <= DELTA_LIMIT_MS,
        ensures
            timer_wf(*final(self)),
            final(self).period_ms == old(self).period_ms,
            fired == (old(self).elapsed_ms + delta_ms >= old(self).period_ms),
            final(self).elapsed_ms == (old(self).elapsed_ms + delta_ms) % (old(self).period_ms as int),
    {
        let total: u64 = self.elapsed_ms + delta_ms;
        let fired = total >= self.period_ms;
        self.elapsed_ms = total % self.period_ms;
        fired
    }
}

/// Population cap for scheduled spawning: with at least this many asteroids
/// alive, the scheduler skips its cycle. A deliberate policy against
/// unbounded growth; fragmentation is not capped, since child scales shrink
/// geometrically.
pub const ASTEROID_CAP: usize = 64;

/// The random choices one spawn cycle consumes: the rejection coin (25%
/// chance of skipping the cycle) and, on acceptance, the new asteroid's
/// position, scale, linear velocity and angular velocity.
#[derive(Clone, Copy, PartialEq, Eq, Structural, Debug)]
pub struct SpawnDraw {
    pub skip: bool,
    pub pos: Vec2I,
    pub scale: u32,
    pub vel: Vec2I,
    pub angvel: i64,
}

/// The ranges the spawn draw is sampled from: position inside the playfield,
/// scale in the spawnable range, velocity components within 15 units, and
/// angular velocity within 2 units.
pub open spec fn spawn_draw_wf(d: SpawnDraw, b: Bounds) -> bool {
    &&& in_bounds(d.pos, b)
    &&& SPAWN_SCALE_LO <= d.scale < SPAWN_SCALE_HI
    &&& -15_000 <= d.vel.x < 15_000
    &&& -15_000 <= d.vel.y < 15_000
    &&& -2000 <= d.angvel < 2000
}

/// Keep the asteroids that are still inside the playfield.
pub open spec fn ast_in_bounds(b: Bounds) -> spec_fn(Asteroid) -> bool {
    |a: Asteroid| in_bounds(a.pos, b)
}

/// The boundary-cull pass over the asteroids: exactly those outside the
/// half-extents are despawned.
///
/// Deliberately the half-extent rule, not the full extent: it keeps the
/// asteroid test consistent with projectile culling and the player's
/// wrap-around, which both use the half-extents.
pub open spec fn cull_asteroids_spec(v: RegistryView, b: Bounds) -> RegistryView {
    RegistryView { asteroids: v.asteroids.filter(ast_in_bounds(b)), ..v }
}

/// The whole per-tick asteroid pass: first the boundary cull, then the spawn
/// scheduler. A completed timer period spawns one asteroid from the draw
/// unless the draw's rejection coin, the population cap, or id exhaustion
/// skips the cycle.
pub open spec fn manage_asteroids_spec(
    v: RegistryView,
    t: SpawnTimer,
    b: Bounds,
    delta_ms: u64,
    d: SpawnDraw,
) -> (RegistryView, SpawnTimer) {
    let v1 = cull_asteroids_spec(v, b);
    let fired = t.elapsed_ms + delta_ms >= t.period_ms;
    let t1 = SpawnTimer {
        period_ms: t.period_ms,
        elapsed_ms: ((t.elapsed_ms + delta_ms) % (t.period_ms as int)) as u64,
    };
    if fired && !d.skip && v1.asteroids.len() < ASTEROID_CAP && v1.next_id < u64::MAX {
        (spawn_asteroid_spec(v1, d.pos, d.vel, d.angvel, d.scale), t1)
    } else {
        (v1, t1)
    }
}

/// One tick of the asteroid systems: boundary culling, then scheduled
/// spawning.
pub fn manage_asteroids(
    reg: &mut Registry,
    timer: &mut SpawnTimer,
    bounds: Bounds,
    delta_ms: u64,
    draw: SpawnDraw,
)
    requires
        reg_wf(old(reg)@),
        timer_wf(*old(timer)),
        bounds_wf(bounds),
        delta_ms <= DELTA_LIMIT_MS,
        spawn_draw_wf(draw, bounds),
    ensures
        (final(reg)@, *final(timer)) == manage_asteroids_spec(
            old(reg)@,
            *old(timer),
            bounds,
            delta_ms,
            draw,
        ),
        reg_wf(final(reg)@),
        timer_wf(*final(timer)),
{
    let ghost v0 = reg@;
    let n = reg.asteroids.len();
    let mut kept: Vec<Asteroid> = Vec::new();
    let mut i: usize = 0;
    while i < n
        invariant
            i <= n,
            n == reg.asteroids.len(),
            reg.asteroids@ == v0.asteroids,
            bounds_wf(bounds),
            kept@ == v0.asteroids.subrange(0, i as int).filter(ast_in_bounds(bounds)),
        decreases n - i,
    {
        proof {
            lemma_filter_step(v0.asteroids, ast_in_bounds(bounds), i as int);
        }
        let a = reg.asteroids[i];
        if vec2_in_bounds(a.pos, bounds) {
            kept.push(a);
        }
        i += 1;
    }
    proof {
        assert(v0.asteroids.subrange(0, n as int) =~= v0.asteroids);
    }
    reg.asteroids = kept;
    proof {
        assert(reg@ =~= cull_asteroids_spec(v0, bounds));
        lemma_filter_asteroids_wf(v0, ast_in_bounds(bounds));
    }
    let fired = timer.tick(delta_ms);
    if fired && !draw.skip && reg.asteroids.len() < ASTEROID_CAP && reg.next_id < u64::MAX {
        spawn_asteroid(reg, draw.pos, draw.vel, draw.angvel, draw.scale);
    }
}

/// The boundary-cull pass keeps exactly the asteroids inside the playfield:
/// one exactly on the edge stays; one a single milli-unit past it is
/// removed.
pub proof fn lemma_cull_boundary(v: RegistryView, b: Bounds, a: Asteroid)
    requires
        bounds_wf(b),
    ensures
        cull_asteroids_spec(v, b).asteroids.contains(a) <==> (v.asteroids.contains(a) && in_bounds(
            a.pos,
            b,
        )),
        a.pos.x == b.half_width && -b.half_height <= a.pos.y <= b.half_height ==> in_bounds(
            a.pos,
            b,
        ),
        a.pos.x == b.half_width + 1 ==> !in_bounds(a.pos, b),
        a.pos.y == b.half_height + 1 ==> !in_bounds(a.pos, b),
{
    lemma_filter_membership(v.asteroids, ast_in_bounds(b), a);
}

} // verus!
