//! Fixed-point plane geometry: vectors in milli-units (thousandths of a world
//! unit), the playfield bounds, and the small arithmetic helpers the
//! simulation rules are written with.

use vstd::prelude::*;

verus! {

/// Largest magnitude, in milli-units, that any stored coordinate, velocity
/// component or angular velocity may have. This is a machine limit of the
/// fixed-point representation, far beyond anything the game reaches; values
/// computed past it are clamped to it.
pub const VAL_LIMIT: i64 = 1_000_000_000_000_000;

/// A plane vector in milli-units.
#[derive(Clone, Copy, PartialEq, Eq, Structural, Debug)]
pub struct Vec2I {
    pub x: i64,
    pub y: i64,
}

/// Both components within the fixed-point range.
pub open spec fn vec2_wf(v: Vec2I) -> bool {
    &&& -VAL_LIMIT <= v.x <= VAL_LIMIT
    &&& -VAL_LIMIT <= v.y <= VAL_LIMIT
}

/// Playfield configuration: the symmetric half-extents around the origin, in
/// milli-units. Injected read-only by the windowing collaborator.
#[derive(Clone, Copy, PartialEq, Eq, Structural, Debug)]
pub struct Bounds {
    pub half_width: i64,
    pub half_height: i64,
}

pub open spec fn bounds_wf(b: Bounds) -> bool {
    &&& 0 < b.half_width <= VAL_LIMIT
    &&& 0 < b.half_height <= VAL_LIMIT
}

/// Whether a position is inside the playfield. A point exactly on the edge is
/// inside; one milli-unit beyond it is outside.
pub open spec fn in_bounds(p: Vec2I, b: Bounds) -> bool {
    &&& -b.half_width <= p.x <= b.half_width
    &&& -b.half_height <= p.y <= b.half_height
}

pub fn vec2_in_bounds(p: Vec2I, b: Bounds) -> (r: bool)
    requires
        bounds_wf(b),
    ensures
        r == in_bounds(p, b),
{
    -b.half_width <= p.x && p.x <= b.half_width && -b.half_height <= p.y && p.y
        <= b.half_height
}

/// A direction handed in by the input collaborator: the ship's forward unit
/// vector in milli-units, so each component lies within one whole unit.
pub open spec fn dir_wf(d: Vec2I) -> bool {
    &&& -1000 <= d.x <= 1000
    &&& -1000 <= d.y <= 1000
}

/// Clamp a value into the fixed-point range.
pub open spec fn clamp_val(x: int) -> int {
    if x > VAL_LIMIT as int {
        VAL_LIMIT as int
    } else if x < -VAL_LIMIT as int {
        -VAL_LIMIT as int
    } else {
        x
    }
}

pub fn clamp_exec(x: i64) -> (r: i64)
    ensures
        r == clamp_val(x as int),
        -VAL_LIMIT <= r <= VAL_LIMIT,
{
    if x > VAL_LIMIT {
        VAL_LIMIT
    } else if x < -VAL_LIMIT {
        -VAL_LIMIT
    } else {
        x
    }
}

/// Three tenths of a quantity, rounded toward zero: the factor by which a
/// destroyed asteroid's children inherit the impacting projectile's velocity.
pub open spec fn frac_3_10(x: int) -> int {
    if x >= 0 {
        (3 * x) / 10
    } else {
        -((3 * -x) / 10)
    }
}

pub fn frac_3_10_exec(x: i64) -> (r: i64)
    requires
        -VAL_LIMIT <= x <= VAL_LIMIT,
    ensures
        r == frac_3_10(x as int),
        -(3 * VAL_LIMIT / 10) <= r <= 3 * VAL_LIMIT / 10,
{
    if x >= 0 {
        let m: u64 = (3 * (x as u64)) / 10;
        assert(3 * x <= 3 * VAL_LIMIT);
        assert(m == (3 * x) / 10 && m <= 3 * VAL_LIMIT / 10) by {
            vstd::arithmetic::div_mod::lemma_div_is_ordered(
                3 * x,
                3 * VAL_LIMIT as int,
                10,
            );
        }
        m as i64
    } else {
        let mag: u64 = (-x) as u64;
        let m: u64 = (3 * mag) / 10;
        assert(m == (3 * -x) / 10 && m <= 3 * VAL_LIMIT / 10) by {
            vstd::arithmetic::div_mod::lemma_div_is_ordered(
                3 * -x,
                3 * VAL_LIMIT as int,
                10,
            );
        }
        -(m as i64)
    }
}

} // verus!
