//! The player's ship: its per-entity state, steering and the wrap-around rule
//! that keeps it on the playfield.

use vstd::prelude::*;

use crate::asteroids::DELTA_LIMIT_MS;
use crate::geometry::{
    bounds_wf, clamp_exec, clamp_val, dir_wf, vec2_wf, Bounds, Vec2I, VAL_LIMIT,
};
use crate::registry::{reg_wf, Registry, RegistryView};

verus! {

/// How much one steering tick changes the ship's angular velocity
/// (milli-units per second).
pub const TURN_SPEED: i64 = 500;

/// Largest angular speed steering may reach (milli-units per second).
pub const MAX_TURN_SPEED: i64 = 5000;

/// Forward thrust in whole units per second squared.
pub const THRUST: i64 = 600;

/// The singleton player entity. Health and score live in the session-wide
/// tracker, not here, so that they survive entity despawn and respawn.
#[derive(Clone, Copy, PartialEq, Eq, Structural, Debug)]
pub struct Player {
    pub id: u64,
    pub pos: Vec2I,
    pub vel: Vec2I,
    pub angvel: i64,
}

pub open spec fn player_wf(p: Player) -> bool {
    &&& vec2_wf(p.pos)
    &&& vec2_wf(p.vel)
    &&& -VAL_LIMIT <= p.angvel <= VAL_LIMIT
}

/// The steering input for one tick, already resolved to at most one
/// direction by the input collaborator.
#[derive(Clone, Copy, PartialEq, Eq, Structural, Debug)]
pub enum TurnInput {
    Straight,
    Left,
    Right,
}

/// The angular velocity after one steering tick: one turn-speed step toward
/// the chosen direction, saturating at the maximum turn speed.
pub open spec fn turned_angvel(angvel: int, turn: TurnInput) -> int {
    match turn {
        TurnInput::Right => vstd::math::max(angvel - TURN_SPEED, -MAX_TURN_SPEED as int),
        TurnInput::Left => vstd::math::min(angvel + TURN_SPEED, MAX_TURN_SPEED as int),
        TurnInput::Straight => angvel,
    }
}

/// The forward-thrust velocity gain on one axis over a time step: direction
/// component times thrust times elapsed seconds, rounded toward zero.
pub open spec fn thrust_gain(c: int, delta_ms: int) -> int {
    if c >= 0 {
        (c * THRUST * delta_ms) / 1000
    } else {
        -((-c * THRUST * delta_ms) / 1000)
    }
}

/// The player's state after one control tick.
pub open spec fn control_player_spec(
    v: RegistryView,
    delta_ms: u64,
    turn: TurnInput,
    thrust: bool,
    dir: Vec2I,
) -> RegistryView {
    if v.player is Some {
        let p = v.player.unwrap();
        let av = turned_angvel(p.angvel as int, turn) as i64;
        let vel = if thrust {
            Vec2I {
                x: clamp_val(p.vel.x + thrust_gain(dir.x as int, delta_ms as int)) as i64,
                y: clamp_val(p.vel.y + thrust_gain(dir.y as int, delta_ms as int)) as i64,
            }
        } else {
            p.vel
        };
        RegistryView { player: Some(Player { angvel: av, vel, ..p }), ..v }
    } else {
        v
    }
}

fn thrust_gain_exec(c: i64, delta_ms: u64) -> (r: i64)
    requires
        -1000 <= c <= 1000,
        delta_ms <= DELTA_LIMIT_MS,
    ensures
        r == thrust_gain(c as int, delta_ms as int),
        -1_000_000_000_000_000 <= r <= 1_000_000_000_000_000,
{
    if c >= 0 {
        let cu: u64 = c as u64;
        proof {
            assert(cu * 600 * delta_ms <= 1000 * 600 * (DELTA_LIMIT_MS as int))
                by (nonlinear_arith)
                requires
                    0 <= cu <= 1000,
                    0 <= delta_ms <= DELTA_LIMIT_MS,
            ;
            vstd::arithmetic::div_mod::lemma_div_is_ordered(
                cu * 600 * (delta_ms as int),
                1000 * 600 * (DELTA_LIMIT_MS as int),
                1000,
            );
        }
        let m: u64 = (cu * 600 * delta_ms) / 1000;
        m as i64
    } else {
        let mag: u64 = (-c) as u64;
        proof {
            assert(mag * 600 * delta_ms <= 1000 * 600 * (DELTA_LIMIT_MS as int))
                by (nonlinear_arith)
                requires
                    0 <= mag <= 1000,
                    0 <= delta_ms <= DELTA_LIMIT_MS,
            ;
            vstd::arithmetic::div_mod::lemma_div_is_ordered(
                mag * 600 * (delta_ms as int),
                1000 * 600 * (DELTA_LIMIT_MS as int),
                1000,
            );
        }
        let m: u64 = (mag * 600 * delta_ms) / 1000;
        -(m as i64)
    }
}

/// One control tick: steering saturates at the maximum turn speed, and a
/// held thrust adds the forward direction scaled by the thrust constant and
/// the elapsed time to the ship's velocity (clamped into the fixed-point
/// range). Without a player the tick is silently skipped.
pub fn control_player(
    reg: &mut Registry,
    delta_ms: u64,
    turn: TurnInput,
    thrust: bool,
    dir: Vec2I,
)
    requires
        reg_wf(old(reg)@),
        delta_ms <= DELTA_LIMIT_MS,
        dir_wf(dir),
    ensures
        final(reg)@ == control_player_spec(old(reg)@, delta_ms, turn, thrust, dir),
        reg_wf(final(reg)@),
{
    let ghost v0 = reg@;
    let p = match &reg.player {
        Some(p) => *p,
        None => {
            return ;
        },
    };
    let av: i64 = match turn {
        TurnInput::Right => {
            let a = p.angvel - TURN_SPEED;
            if a >= -MAX_TURN_SPEED {
                a
            } else {
                -MAX_TURN_SPEED
            }
        },
        TurnInput::Left => {
            let a = p.angvel + TURN_SPEED;
            if a <= MAX_TURN_SPEED {
                a
            } else {
                MAX_TURN_SPEED
            }
        },
        TurnInput::Straight => p.angvel,
    };
    let vel = if thrust {
        Vec2I {
            x: clamp_exec(p.vel.x + thrust_gain_exec(dir.x, delta_ms)),
            y: clamp_exec(p.vel.y + thrust_gain_exec(dir.y, delta_ms)),
        }
    } else {
        p.vel
    };
    reg.player = Some(Player { angvel: av, vel, ..p });
    proof {
        assert(reg@ =~= control_player_spec(v0, delta_ms, turn, thrust, dir));
    }
}

/// A coordinate wrapped at the playfield's half-extent: crossing one edge
/// teleports to the opposite one.
pub open spec fn wrap_coord(x: int, half: int) -> int {
    if x > half {
        -half
    } else if x < -half {
        half
    } else {
        x
    }
}

/// The player's position after the wrap-around pass.
pub open spec fn keep_player_spec(v: RegistryView, b: Bounds) -> RegistryView {
    if v.player is Some {
        let p = v.player.unwrap();
        let pos = Vec2I {
            x: wrap_coord(p.pos.x as int, b.half_width as int) as i64,
            y: wrap_coord(p.pos.y as int, b.half_height as int) as i64,
        };
        RegistryView { player: Some(Player { pos, ..p }), ..v }
    } else {
        v
    }
}

/// Keep the player on the playfield by wrapping it around the half-extents.
/// Without a player the tick is silently skipped.
pub fn keep_player(reg: &mut Registry, bounds: Bounds)
    requires
        reg_wf(old(reg)@),
        bounds_wf(bounds),
    ensures
        final(reg)@ == keep_player_spec(old(reg)@, bounds),
        reg_wf(final(reg)@),
{
    let ghost v0 = reg@;
    let p = match &reg.player {
        Some(p) => *p,
        None => {
            return ;
        },
    };
    let x = if p.pos.x > bounds.half_width {
        -bounds.half_width
    } else if p.pos.x < -bounds.half_width {
        bounds.half_width
    } else {
        p.pos.x
    };
    let y = if p.pos.y > bounds.half_height {
        -bounds.half_height
    } else if p.pos.y < -bounds.half_height {
        bounds.half_height
    } else {
        p.pos.y
    };
    reg.player = Some(Player { pos: Vec2I { x, y }, ..p });
    proof {
        assert(reg@ =~= keep_player_spec(v0, bounds));
    }
}

} // verus!
