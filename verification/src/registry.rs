//! The entity registry: the live game entities (the player, asteroids,
//! projectiles) with their physical state, keyed by unique entity ids. The
//! registry is the single place entities are created and despawned, and a
//! despawn of an id that is already gone is a no-op.

use vstd::prelude::*;

use crate::asteroids::{asteroid_wf, score_of, Asteroid, SCALE_MIN};
use crate::geometry::{vec2_wf, Vec2I, VAL_LIMIT};
use crate::player::{player_wf, Player};
use crate::seq_helpers::{
    distinct_by, lemma_filter_distinct_by, lemma_filter_idempotent, lemma_filter_source,
    lemma_filter_step,
};
use crate::shooting::{projectile_wf, Projectile};

verus! {

/// What kind of entity an id refers to. An id never refers to more than one
/// kind, because ids are unique across the whole registry.
#[derive(Clone, Copy, PartialEq, Eq, Structural, Debug)]
pub enum EntityKind {
    Player,
    Asteroid,
    Projectile,
}

pub struct Registry {
    pub player: Option<Player>,
    pub asteroids: Vec<Asteroid>,
    pub projectiles: Vec<Projectile>,
    pub next_id: u64,
}

/// The registry's mathematical model: the same data with sequences in place
/// of vectors.
#[verifier::ext_equal]
pub ghost struct RegistryView {
    pub player: Option<Player>,
    pub asteroids: Seq<Asteroid>,
    pub projectiles: Seq<Projectile>,
    pub next_id: u64,
}

impl View for Registry {
    type V = RegistryView;

    open spec fn view(&self) -> RegistryView {
        RegistryView {
            player: self.player,
            asteroids: self.asteroids@,
            projectiles: self.projectiles@,
            next_id: self.next_id,
        }
    }
}

pub open spec fn ast_id() -> spec_fn(Asteroid) -> u64 {
    |a: Asteroid| a.id
}

pub open spec fn proj_id() -> spec_fn(Projectile) -> u64 {
    |p: Projectile| p.id
}

/// Keep every asteroid except the one with the given id.
pub open spec fn ast_keep(id: u64) -> spec_fn(Asteroid) -> bool {
    |a: Asteroid| a.id != id
}

/// Keep every projectile except the one with the given id.
pub open spec fn proj_keep(id: u64) -> spec_fn(Projectile) -> bool {
    |p: Projectile| p.id != id
}

/// Ids are pairwise distinct across the whole registry and below the
/// allocation counter.
pub open spec fn ids_ok(v: RegistryView) -> bool {
    &&& distinct_by(v.asteroids, ast_id())
    &&& distinct_by(v.projectiles, proj_id())
    &&& forall|i: int, j: int|
        0 <= i < v.asteroids.len() && 0 <= j < v.projectiles.len() ==> #[trigger] v.asteroids[i].id
            != #[trigger] v.projectiles[j].id
    &&& v.player is Some ==> forall|i: int|
        0 <= i < v.asteroids.len() ==> v.player.unwrap().id != #[trigger] v.asteroids[i].id
    &&& v.player is Some ==> forall|j: int|
        0 <= j < v.projectiles.len() ==> v.player.unwrap().id != #[trigger] v.projectiles[j].id
    &&& forall|i: int| 0 <= i < v.asteroids.len() ==> #[trigger] v.asteroids[i].id < v.next_id
    &&& forall|j: int| 0 <= j < v.projectiles.len() ==> #[trigger] v.projectiles[j].id < v.next_id
    &&& v.player is Some ==> v.player.unwrap().id < v.next_id
}

/// Well-formedness of the whole registry: unique ids and well-formed
/// entities; in particular every stored asteroid's scale is at least the
/// minimum, and its score is exactly the score of its scale.
pub open spec fn reg_wf(v: RegistryView) -> bool {
    &&& ids_ok(v)
    &&& forall|i: int| 0 <= i < v.asteroids.len() ==> asteroid_wf(#[trigger] v.asteroids[i])
    &&& forall|j: int| 0 <= j < v.projectiles.len() ==> projectile_wf(#[trigger] v.projectiles[j])
    &&& v.player is Some ==> player_wf(v.player.unwrap())
}

pub open spec fn has_player(v: RegistryView, id: u64) -> bool {
    v.player is Some && v.player.unwrap().id == id
}

pub open spec fn has_asteroid(v: RegistryView, id: u64) -> bool {
    exists|i: int| 0 <= i < v.asteroids.len() && #[trigger] v.asteroids[i].id == id
}

pub open spec fn has_projectile(v: RegistryView, id: u64) -> bool {
    exists|j: int| 0 <= j < v.projectiles.len() && #[trigger] v.projectiles[j].id == id
}

pub open spec fn asteroid_index(v: RegistryView, id: u64) -> int {
    choose|i: int| 0 <= i < v.asteroids.len() && #[trigger] v.asteroids[i].id == id
}

/// The asteroid carrying the given id (meaningful when `has_asteroid`).
pub open spec fn asteroid_with(v: RegistryView, id: u64) -> Asteroid {
    v.asteroids[asteroid_index(v, id)]
}

pub open spec fn projectile_index(v: RegistryView, id: u64) -> int {
    choose|j: int| 0 <= j < v.projectiles.len() && #[trigger] v.projectiles[j].id == id
}

/// The projectile carrying the given id (meaningful when `has_projectile`).
pub open spec fn projectile_with(v: RegistryView, id: u64) -> Projectile {
    v.projectiles[projectile_index(v, id)]
}

/// Classification of an id into at most one kind, by registry membership.
pub open spec fn kind_of(v: RegistryView, id: u64) -> Option<EntityKind> {
    if has_player(v, id) {
        Some(EntityKind::Player)
    } else if has_asteroid(v, id) {
        Some(EntityKind::Asteroid)
    } else if has_projectile(v, id) {
        Some(EntityKind::Projectile)
    } else {
        None
    }
}

/// Despawning an id removes whatever entity carries it and nothing else.
pub open spec fn remove_id(v: RegistryView, id: u64) -> RegistryView {
    RegistryView {
        player: if has_player(v, id) {
            None
        } else {
            v.player
        },
        asteroids: v.asteroids.filter(ast_keep(id)),
        projectiles: v.projectiles.filter(proj_keep(id)),
        next_id: v.next_id,
    }
}

/// The shared asteroid creation rule: the score is derived from the scale at
/// creation and immutable thereafter.
pub open spec fn make_asteroid(id: u64, pos: Vec2I, vel: Vec2I, angvel: i64, scale: u32) -> Asteroid {
    Asteroid { id, scale, score: score_of(scale as int) as u32, pos, vel, angvel }
}

pub open spec fn spawn_asteroid_spec(
    v: RegistryView,
    pos: Vec2I,
    vel: Vec2I,
    angvel: i64,
    scale: u32,
) -> RegistryView {
    RegistryView {
        asteroids: v.asteroids.push(make_asteroid(v.next_id, pos, vel, angvel, scale)),
        next_id: (v.next_id + 1) as u64,
        ..v
    }
}

pub open spec fn spawn_projectile_spec(
    v: RegistryView,
    pos: Vec2I,
    vel: Vec2I,
) -> RegistryView {
    RegistryView {
        projectiles: v.projectiles.push(
            Projectile { id: v.next_id, pos, vel, initial_velocity: vel },
        ),
        next_id: (v.next_id + 1) as u64,
        ..v
    }
}

impl Registry {
    /// An empty registry.
    pub fn new() -> (reg: Registry)
        ensures
            reg@.player is None,
            reg@.asteroids.len() == 0,
            reg@.projectiles.len() == 0,
            reg@.next_id == 0,
            reg_wf(reg@),
    {
        Registry { player: None, asteroids: Vec::new(), projectiles: Vec::new(), next_id: 0 }
    }
}

/// Despawn the entity with the given id; a no-op when no entity carries it,
/// so that the second of two despawns of one id within a tick does nothing.
pub fn despawn(reg: &mut Registry, id: u64)
    requires
        reg_wf(old(reg)@),
    ensures
        final(reg)@ == remove_id(old(reg)@, id),
        reg_wf(final(reg)@),
{
    let ghost v0 = reg@;
    let remove_player = match &reg.player {
        Some(p) => p.id == id,
        None => false,
    };
    if remove_player {
        reg.player = None;
    }
    let n = reg.asteroids.len();
    let mut kept_a: Vec<Asteroid> = Vec::new();
    let mut i: usize = 0;
    while i < n
        invariant
            i <= n,
            n == reg.asteroids.len(),
            reg.asteroids@ == v0.asteroids,
            kept_a@ == v0.asteroids.subrange(0, i as int).filter(ast_keep(id)),
        decreases n - i,
    {
        proof {
            lemma_filter_step(v0.asteroids, ast_keep(id), i as int);
        }
        let a = reg.asteroids[i];
        if a.id != id {
            kept_a.push(a);
        }
        i += 1;
    }
    proof {
        assert(v0.asteroids.subrange(0, n as int) =~= v0.asteroids);
    }
    reg.asteroids = kept_a;
    let m = reg.projectiles.len();
    let mut kept_p: Vec<Projectile> = Vec::new();
    let mut j: usize = 0;
    while j < m
        invariant
            j <= m,
            m == reg.projectiles.len(),
            reg.projectiles@ == v0.projectiles,
            kept_p@ == v0.projectiles.subrange(0, j as int).filter(proj_keep(id)),
        decreases m - j,
    {
        proof {
            lemma_filter_step(v0.projectiles, proj_keep(id), j as int);
        }
        let p = reg.projectiles[j];
        if p.id != id {
            kept_p.push(p);
        }
        j += 1;
    }
    proof {
        assert(v0.projectiles.subrange(0, m as int) =~= v0.projectiles);
    }
    reg.projectiles = kept_p;
    proof {
        assert(reg@ =~= remove_id(v0, id));
        lemma_remove_id_wf(v0, id);
    }
}

/// Dropping asteroids by any predicate keeps the registry well-formed.
pub proof fn lemma_filter_asteroids_wf(v: RegistryView, pred: spec_fn(Asteroid) -> bool)
    requires
        reg_wf(v),
    ensures
        reg_wf(RegistryView { asteroids: v.asteroids.filter(pred), ..v }),
{
    let va = v.asteroids.filter(pred);
    lemma_filter_distinct_by(v.asteroids, pred, ast_id());
    assert forall|i: int| 0 <= i < va.len() implies asteroid_wf(#[trigger] va[i]) && va[i].id
        < v.next_id && (forall|j: int|
        0 <= j < v.projectiles.len() ==> va[i].id != #[trigger] v.projectiles[j].id) && (
    v.player is Some ==> v.player.unwrap().id != va[i].id) by {
        lemma_filter_source(v.asteroids, pred, va[i]);
        let k = choose|k: int| 0 <= k < v.asteroids.len() && v.asteroids[k] == va[i];
        assert(asteroid_wf(v.asteroids[k]));
    }
}

/// Dropping projectiles by any predicate keeps the registry well-formed.
pub proof fn lemma_filter_projectiles_wf(v: RegistryView, pred: spec_fn(Projectile) -> bool)
    requires
        reg_wf(v),
    ensures
        reg_wf(RegistryView { projectiles: v.projectiles.filter(pred), ..v }),
{
    let vp = v.projectiles.filter(pred);
    lemma_filter_distinct_by(v.projectiles, pred, proj_id());
    assert forall|j: int| 0 <= j < vp.len() implies projectile_wf(#[trigger] vp[j]) && vp[j].id
        < v.next_id && (forall|i: int|
        0 <= i < v.asteroids.len() ==> #[trigger] v.asteroids[i].id != vp[j].id) && (
    v.player is Some ==> v.player.unwrap().id != vp[j].id) by {
        lemma_filter_source(v.projectiles, pred, vp[j]);
        let k = choose|k: int| 0 <= k < v.projectiles.len() && v.projectiles[k] == vp[j];
        assert(projectile_wf(v.projectiles[k]));
    }
}

/// Removing an id keeps the registry well-formed.
pub proof fn lemma_remove_id_wf(v: RegistryView, id: u64)
    requires
        reg_wf(v),
    ensures
        reg_wf(remove_id(v, id)),
{
    lemma_filter_asteroids_wf(v, ast_keep(id));
    let v1 = RegistryView { asteroids: v.asteroids.filter(ast_keep(id)), ..v };
    lemma_filter_projectiles_wf(v1, proj_keep(id));
    let v2 = RegistryView { projectiles: v1.projectiles.filter(proj_keep(id)), ..v1 };
    assert(reg_wf(v2));
    assert(remove_id(v, id) =~= RegistryView {
        player: if has_player(v, id) {
            None
        } else {
            v.player
        },
        ..v2
    });
}

/// Despawning the same id twice changes the registry only once.
pub proof fn lemma_despawn_idempotent(v: RegistryView, id: u64)
    ensures
        remove_id(remove_id(v, id), id) == remove_id(v, id),
{
    lemma_filter_idempotent(v.asteroids, ast_keep(id));
    lemma_filter_idempotent(v.projectiles, proj_keep(id));
    assert(remove_id(remove_id(v, id), id) =~= remove_id(v, id));
}

/// After a despawn the id is gone from the registry.
pub proof fn lemma_remove_id_gone(v: RegistryView, id: u64)
    ensures
        !has_asteroid(remove_id(v, id), id),
        !has_projectile(remove_id(v, id), id),
        !has_player(remove_id(v, id), id),
        kind_of(remove_id(v, id), id) is None,
{
    let w = remove_id(v, id);
    assert forall|i: int| 0 <= i < w.asteroids.len() implies #[trigger] w.asteroids[i].id != id by {
        lemma_filter_source(v.asteroids, ast_keep(id), w.asteroids[i]);
    }
    assert forall|j: int| 0 <= j < w.projectiles.len() implies #[trigger] w.projectiles[j].id
        != id by {
        lemma_filter_source(v.projectiles, proj_keep(id), w.projectiles[j]);
    }
}

/// Create an asteroid through the shared creation rule (the scale-to-score
/// formula), tagging it with the next fresh id.
pub fn spawn_asteroid(reg: &mut Registry, pos: Vec2I, vel: Vec2I, angvel: i64, scale: u32)
    requires
        reg_wf(old(reg)@),
        vec2_wf(pos),
        vec2_wf(vel),
        -VAL_LIMIT <= angvel <= VAL_LIMIT,
        scale >= SCALE_MIN,
        old(reg).next_id < u64::MAX,
    ensures
        final(reg)@ == spawn_asteroid_spec(old(reg)@, pos, vel, angvel, scale),
        reg_wf(final(reg)@),
{
    let ghost v0 = reg@;
    let score = crate::asteroids::asteroid_score(scale);
    let a = Asteroid { id: reg.next_id, scale, score, pos, vel, angvel };
    reg.asteroids.push(a);
    reg.next_id = reg.next_id + 1;
    proof {
        assert(a == make_asteroid(v0.next_id, pos, vel, angvel, scale));
        assert(reg@ =~= spawn_asteroid_spec(v0, pos, vel, angvel, scale));
        lemma_spawn_asteroid_wf(v0, pos, vel, angvel, scale);
    }
}

pub proof fn lemma_spawn_asteroid_wf(v: RegistryView, pos: Vec2I, vel: Vec2I, angvel: i64, scale: u32)
    requires
        reg_wf(v),
        vec2_wf(pos),
        vec2_wf(vel),
        -VAL_LIMIT <= angvel <= VAL_LIMIT,
        scale >= SCALE_MIN,
        v.next_id < u64::MAX,
    ensures
        reg_wf(spawn_asteroid_spec(v, pos, vel, angvel, scale)),
{
    let w = spawn_asteroid_spec(v, pos, vel, angvel, scale);
    let a = make_asteroid(v.next_id, pos, vel, angvel, scale);
    assert(0 <= score_of(scale as int) <= 5);
    assert(asteroid_wf(a));
    assert forall|i: int, j: int| 0 <= i < j < w.asteroids.len() implies ast_id()(w.asteroids[i])
        != ast_id()(w.asteroids[j]) by {
        if j == w.asteroids.len() - 1 {
            assert(v.asteroids[i].id < v.next_id);
        }
    }
}

/// Create a projectile at the given position, recording the velocity as both
/// current and initial, tagged with the next fresh id.
pub fn spawn_projectile(reg: &mut Registry, pos: Vec2I, vel: Vec2I)
    requires
        reg_wf(old(reg)@),
        vec2_wf(pos),
        vec2_wf(vel),
        old(reg).next_id < u64::MAX,
    ensures
        final(reg)@ == spawn_projectile_spec(old(reg)@, pos, vel),
        reg_wf(final(reg)@),
{
    let ghost v0 = reg@;
    let p = Projectile { id: reg.next_id, pos, vel, initial_velocity: vel };
    reg.projectiles.push(p);
    reg.next_id = reg.next_id + 1;
    proof {
        assert(reg@ =~= spawn_projectile_spec(v0, pos, vel));
        let w = spawn_projectile_spec(v0, pos, vel);
        assert forall|i: int, j: int| 0 <= i < j < w.projectiles.len() implies proj_id()(
            w.projectiles[i],
        ) != proj_id()(w.projectiles[j]) by {
            if j == w.projectiles.len() - 1 {
                assert(v0.projectiles[i].id < v0.next_id);
            }
        }
    }
}

/// Install the player entity at the origin, at rest, under a fresh id.
pub fn setup_player(reg: &mut Registry)
    requires
        reg_wf(old(reg)@),
        old(reg).next_id < u64::MAX,
    ensures
        final(reg)@.player == Some(
            Player {
                id: old(reg)@.next_id,
                pos: Vec2I { x: 0, y: 0 },
                vel: Vec2I { x: 0, y: 0 },
                angvel: 0,
            },
        ),
        final(reg)@.asteroids == old(reg)@.asteroids,
        final(reg)@.projectiles == old(reg)@.projectiles,
        final(reg)@.next_id == old(reg)@.next_id + 1,
        reg_wf(final(reg)@),
{
    let p = Player {
        id: reg.next_id,
        pos: Vec2I { x: 0, y: 0 },
        vel: Vec2I { x: 0, y: 0 },
        angvel: 0,
    };
    reg.player = Some(p);
    reg.next_id = reg.next_id + 1;
}

/// Find an asteroid by id.
pub fn find_asteroid(reg: &Registry, id: u64) -> (r: Option<usize>)
    requires
        reg_wf(reg@),
    ensures
        match r {
            Some(i) => i < reg@.asteroids.len() && reg@.asteroids[i as int].id == id
                && has_asteroid(reg@, id) && reg@.asteroids[i as int] == asteroid_with(reg@, id),
            None => !has_asteroid(reg@, id),
        },
{
    let n = reg.asteroids.len();
    let mut i: usize = 0;
    while i < n
        invariant
            i <= n,
            n == reg@.asteroids.len(),
            reg_wf(reg@),
            forall|k: int| 0 <= k < i ==> #[trigger] reg@.asteroids[k].id != id,
        decreases n - i,
    {
        if reg.asteroids[i].id == id {
            proof {
                let k = asteroid_index(reg@, id);
                assert(reg@.asteroids[k].id == id);
                if k != i {
                    assert(ast_id()(reg@.asteroids[k]) == ast_id()(reg@.asteroids[i as int]));
                }
            }
            return Some(i);
        }
        i += 1;
    }
    None
}

/// Find a projectile by id.
pub fn find_projectile(reg: &Registry, id: u64) -> (r: Option<usize>)
    requires
        reg_wf(reg@),
    ensures
        match r {
            Some(j) => j < reg@.projectiles.len() && reg@.projectiles[j as int].id == id
                && has_projectile(reg@, id) && reg@.projectiles[j as int] == projectile_with(
                reg@,
                id,
            ),
            None => !has_projectile(reg@, id),
        },
{
    let m = reg.projectiles.len();
    let mut j: usize = 0;
    while j < m
        invariant
            j <= m,
            m == reg@.projectiles.len(),
            reg_wf(reg@),
            forall|k: int| 0 <= k < j ==> #[trigger] reg@.projectiles[k].id != id,
        decreases m - j,
    {
        if reg.projectiles[j].id == id {
            proof {
                let k = projectile_index(reg@, id);
                assert(reg@.projectiles[k].id == id);
                if k != j {
                    assert(proj_id()(reg@.projectiles[k]) == proj_id()(
                        reg@.projectiles[j as int],
                    ));
                }
            }
            return Some(j);
        }
        j += 1;
    }
    None
}

/// Classify an id into at most one kind by registry membership.
pub fn classify(reg: &Registry, id: u64) -> (k: Option<EntityKind>)
    requires
        reg_wf(reg@),
    ensures
        k == kind_of(reg@, id),
{
    let is_player = match &reg.player {
        Some(p) => p.id == id,
        None => false,
    };
    if is_player {
        return Some(EntityKind::Player);
    }
    if let Some(_i) = find_asteroid(reg, id) {
        return Some(EntityKind::Asteroid);
    }
    if let Some(_j) = find_projectile(reg, id) {
        return Some(EntityKind::Projectile);
    }
    None
}

/// Write an entity's physical state, as the physics collaborator reports it
/// each tick; reports whether the id was found.
pub fn set_entity_motion(reg: &mut Registry, id: u64, pos: Vec2I, vel: Vec2I, angvel: i64) -> (found:
    bool)
    requires
        reg_wf(old(reg)@),
        vec2_wf(pos),
        vec2_wf(vel),
        -VAL_LIMIT <= angvel <= VAL_LIMIT,
    ensures
        reg_wf(final(reg)@),
        final(reg)@.next_id == old(reg)@.next_id,
        found == (kind_of(old(reg)@, id) is Some),
        has_player(old(reg)@, id) ==> final(reg)@ == (RegistryView {
            player: Some(Player { id, pos, vel, angvel }),
            ..old(reg)@
        }),
        (has_asteroid(old(reg)@, id) && !has_player(old(reg)@, id)) ==> final(reg)@
            == (RegistryView {
            asteroids: old(reg)@.asteroids.update(
                asteroid_index(old(reg)@, id),
                Asteroid { pos, vel, angvel, ..asteroid_with(old(reg)@, id) },
            ),
            ..old(reg)@
        }),
        (has_projectile(old(reg)@, id) && !has_player(old(reg)@, id) && !has_asteroid(
            old(reg)@,
            id,
        )) ==> final(reg)@ == (RegistryView {
            projectiles: old(reg)@.projectiles.update(
                projectile_index(old(reg)@, id),
                Projectile { pos, vel, ..projectile_with(old(reg)@, id) },
            ),
            ..old(reg)@
        }),
        kind_of(old(reg)@, id) is None ==> final(reg)@ == old(reg)@,
{
    let ghost v0 = reg@;
    let is_player = match &reg.player {
        Some(p) => p.id == id,
        None => false,
    };
    if is_player {
        reg.player = Some(Player { id, pos, vel, angvel });
        return true;
    }
    if let Some(i) = find_asteroid(reg, id) {
        let a = reg.asteroids[i];
        let updated = Asteroid { pos, vel, angvel, ..a };
        reg.asteroids.set(i, updated);
        proof {
            let k = asteroid_index(v0, id);
            if k != i {
                assert(ast_id()(v0.asteroids[k]) == ast_id()(v0.asteroids[i as int]));
            }
            assert(reg@ =~= RegistryView {
                asteroids: v0.asteroids.update(
                    asteroid_index(v0, id),
                    Asteroid { pos, vel, angvel, ..asteroid_with(v0, id) },
                ),
                ..v0
            });
            lemma_update_motion_wf_ast(v0, i as int, updated);
        }
        return true;
    }
    if let Some(j) = find_projectile(reg, id) {
        let p = reg.projectiles[j];
        let updated = Projectile { pos, vel, ..p };
        reg.projectiles.set(j, updated);
        proof {
            let k = projectile_index(v0, id);
            if k != j {
                assert(proj_id()(v0.projectiles[k]) == proj_id()(v0.projectiles[j as int]));
            }
            assert(reg@ =~= RegistryView {
                projectiles: v0.projectiles.update(
                    projectile_index(v0, id),
                    Projectile { pos, vel, ..projectile_with(v0, id) },
                ),
                ..v0
            });
            lemma_update_motion_wf_proj(v0, j as int, updated);
        }
        return true;
    }
    false
}

proof fn lemma_update_motion_wf_ast(v: RegistryView, i: int, a: Asteroid)
    requires
        reg_wf(v),
        0 <= i < v.asteroids.len(),
        a.id == v.asteroids[i].id,
        asteroid_wf(a),
    ensures
        reg_wf(RegistryView { asteroids: v.asteroids.update(i, a), ..v }),
{
}

proof fn lemma_update_motion_wf_proj(v: RegistryView, j: int, p: Projectile)
    requires
        reg_wf(v),
        0 <= j < v.projectiles.len(),
        p.id == v.projectiles[j].id,
        projectile_wf(p),
    ensures
        reg_wf(RegistryView { projectiles: v.projectiles.update(j, p), ..v }),
{
}

} // verus!
