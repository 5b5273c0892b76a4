//! The randomness source. One trusted wrapper draws a uniform number below a
//! bound from the `rand` crate; everything built on top of it — the spawn
//! draw, the split ratio, the separation directions — is verified code that
//! maps such numbers into the ranges the rules ask for.

use vstd::prelude::*;

use crate::asteroids::{spawn_draw_wf, SpawnDraw, SPAWN_SCALE_LO};
use crate::fragmentation::{
    fragment_draw_wf, sep_wf, FragmentDraw, RATIO_LO, SEPARATION_IMPULSE,
};
use crate::geometry::{bounds_wf, Bounds, Vec2I};

verus! {

/// Relies on rand::random_range over `0..n`: a uniform draw below `n`. It
/// panics only on an empty range, which the precondition rules out; nothing
/// beyond the range can be promised of a random value.
#[verifier::external_body]
fn random_below(n: u64) -> (r: u64)
    requires
        n > 0,
    ensures
        r < n,
{
    rand::random_range(0..n)
}

/// The square of a small number.
fn square(x: u64) -> (r: u64)
    requires
        x <= 2001,
    ensures
        r == x * x,
{
    proof {
        assert(x * x <= 2001 * 2001) by (nonlinear_arith)
            requires
                0 <= x <= 2001,
        ;
    }
    x * x
}

/// Integer square root, exact.
pub fn isqrt(n: u64) -> (r: u64)
    requires
        n <= 4_000_000,
    ensures
        (r as int) * (r as int) <= n < ((r as int) + 1) * ((r as int) + 1),
{
    let mut r: u64 = 0;
    while square(r + 1) <= n
        invariant
            n <= 4_000_000,
            r <= n,
            r <= 2000,
            (r as int) * (r as int) <= n,
        decreases n - r,
    {
        proof {
            assert((r + 1) * (r + 1) <= 4_000_000 ==> r + 1 <= 2000) by (nonlinear_arith);
            assert(r + 1 <= (r + 1) * (r + 1)) by (nonlinear_arith)
                requires
                    0 <= r,
            ;
        }
        r = r + 1;
    }
    r
}

/// Draw a separation impulse for one fragmentation child: a random direction
/// scaled to the separation-impulse magnitude. The impossible zero draw
/// falls back to the positive x axis. Of a random direction only the range
/// of its components can be promised.
fn draw_separation() -> (s: Vec2I)
    ensures
        sep_wf(s),
{
    let rx = random_below(2001);
    let ry = random_below(2001);
    let x: i64 = (rx as i64) - 1000;
    let y: i64 = (ry as i64) - 1000;
    if x == 0 && y == 0 {
        return Vec2I { x: SEPARATION_IMPULSE, y: 0 };
    }
    let ax: u64 = if x >= 0 {
        x as u64
    } else {
        (-x) as u64
    };
    let ay: u64 = if y >= 0 {
        y as u64
    } else {
        (-y) as u64
    };
    proof {
        assert(ax * ax <= 1000 * 1000 && ay * ay <= 1000 * 1000) by (nonlinear_arith)
            requires
                0 <= ax <= 1000,
                0 <= ay <= 1000,
        ;
    }
    let n2: u64 = ax * ax + ay * ay;
    let m = isqrt(n2);
    proof {
        assert(1 <= n2) by (nonlinear_arith)
            requires
                (1 <= ax || 1 <= ay) && 0 <= ax && 0 <= ay,
                n2 == ax * ax + ay * ay,
        ;
        assert(m >= 1) by (nonlinear_arith)
            requires
                1 <= n2,
                0 <= m,
                (m as int) * (m as int) <= n2 < ((m as int) + 1) * ((m as int) + 1),
        ;
        assert(ax <= m && ay <= m) by (nonlinear_arith)
            requires
                0 <= ax && 0 <= ay && 0 <= m,
                ax * ax <= (m + 1) * (m + 1) - 1,
                ay * ay <= (m + 1) * (m + 1) - 1,
        ;
        vstd::arithmetic::div_mod::lemma_div_is_ordered(
            ax * 15_000,
            m * 15_000,
            m as int,
        );
        vstd::arithmetic::div_mod::lemma_div_by_multiple(15_000, m as int);
        vstd::arithmetic::div_mod::lemma_div_is_ordered(
            ay * 15_000,
            m * 15_000,
            m as int,
        );
    }
    let sx: u64 = ax * 15_000 / m;
    let sy: u64 = ay * 15_000 / m;
    let ox: i64 = if x >= 0 {
        sx as i64
    } else {
        -(sx as i64)
    };
    let oy: i64 = if y >= 0 {
        sy as i64
    } else {
        -(sy as i64)
    };
    Vec2I { x: ox, y: oy }
}

/// Draw the random choices of one fragmentation: a split ratio uniform over
/// its range and an independent separation impulse per child.
pub fn draw_fragment() -> (d: FragmentDraw)
    ensures
        fragment_draw_wf(d),
{
    let ratio: u32 = RATIO_LO + (random_below(401) as u32);
    FragmentDraw { ratio, sep1: draw_separation(), sep2: draw_separation() }
}

/// Draw the random choices of one spawn cycle: the 25% rejection coin,
/// position uniform over the playfield, scale uniform over the spawnable
/// range, velocity components as whole units within 15, angular velocity as
/// whole units within 2.
pub fn draw_spawn(bounds: Bounds) -> (d: SpawnDraw)
    requires
        bounds_wf(bounds),
    ensures
        spawn_draw_wf(d, bounds),
{
    let skip = random_below(4) == 0;
    let px: i64 = -bounds.half_width + (random_below((2 * bounds.half_width) as u64) as i64);
    let py: i64 = -bounds.half_height + (random_below((2 * bounds.half_height) as u64) as i64);
    let scale: u32 = SPAWN_SCALE_LO + (random_below(300) as u32);
    let vx: i64 = ((random_below(30) as i64) - 15) * 1000;
    let vy: i64 = ((random_below(30) as i64) - 15) * 1000;
    let angvel: i64 = ((random_below(4) as i64) - 2) * 1000;
    SpawnDraw { skip, pos: Vec2I { x: px, y: py }, scale, vel: Vec2I { x: vx, y: vy }, angvel }
}

} // verus!
