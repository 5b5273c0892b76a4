//! The fragmentation engine: given a destroyed asteroid's scale and the
//! impacting projectile's velocity, decide whether it splits into two child
//! asteroids and compute their scales and velocities.

use vstd::prelude::*;

use crate::asteroids::SCALE_MIN;
use crate::geometry::{frac_3_10, frac_3_10_exec, vec2_wf, Vec2I, VAL_LIMIT};

verus! {

/// Lower bound (inclusive, milli-units) of the split ratio.
pub const RATIO_LO: u32 = 300;

/// Upper bound (inclusive, milli-units) of the split ratio.
pub const RATIO_HI: u32 = 700;

/// The separation constant (milli-units): each child gets a separation
/// impulse of three tenths of this magnitude, at its own random angle.
pub const SEPARATION: i64 = 50_000;

/// Magnitude of each child's separation impulse: three tenths of the
/// separation constant.
pub const SEPARATION_IMPULSE: i64 = 15_000;

/// The random choices one fragmentation consumes: the split ratio, and one
/// separation impulse per child, drawn independently so the two children
/// separate in generally different directions.
#[derive(Clone, Copy, PartialEq, Eq, Structural, Debug)]
pub struct FragmentDraw {
    pub ratio: u32,
    pub sep1: Vec2I,
    pub sep2: Vec2I,
}

pub open spec fn sep_wf(s: Vec2I) -> bool {
    &&& -SEPARATION_IMPULSE <= s.x <= SEPARATION_IMPULSE
    &&& -SEPARATION_IMPULSE <= s.y <= SEPARATION_IMPULSE
}

pub open spec fn fragment_draw_wf(d: FragmentDraw) -> bool {
    &&& RATIO_LO <= d.ratio <= RATIO_HI
    &&& sep_wf(d.sep1)
    &&& sep_wf(d.sep2)
}

/// Scale of the first child: the parent's scale times the split ratio,
/// floored to a milli-unit.
pub open spec fn child_scale_1(scale: int, ratio: int) -> int {
    (scale * ratio) / 1000
}

/// Scale of the second child: exactly the remainder of the parent's scale,
/// so that the two children always sum to the parent.
pub open spec fn child_scale_2(scale: int, ratio: int) -> int {
    scale - child_scale_1(scale, ratio)
}

/// Fragmentation happens only when both children stay at or above the
/// minimum scale; otherwise the parent is destroyed with no replacement.
pub open spec fn fragments_ok(scale: int, ratio: int) -> bool {
    &&& child_scale_1(scale, ratio) >= SCALE_MIN
    &&& child_scale_2(scale, ratio) >= SCALE_MIN
}

/// A child's velocity: three tenths of the impacting velocity, shared by
/// both children, plus the child's own separation impulse.
pub open spec fn child_velocity(impact: Vec2I, sep: Vec2I) -> Vec2I {
    Vec2I { x: (frac_3_10(impact.x as int) + sep.x) as i64, y: (frac_3_10(impact.y as int) + sep.y) as i64 }
}

/// Compute both child scales.
pub fn child_scales(scale: u32, ratio: u32) -> (r: (u32, u32))
    requires
        ratio <= 1000,
    ensures
        r.0 == child_scale_1(scale as int, ratio as int),
        r.1 == child_scale_2(scale as int, ratio as int),
        r.0 + r.1 == scale,
{
    proof {
        assert(0 <= (scale as int) * (ratio as int) <= (scale as int) * 1000) by (nonlinear_arith)
            requires
                0 <= scale as int,
                0 <= ratio as int <= 1000,
        ;
    }
    let wide: u64 = (scale as u64) * (ratio as u64);
    let s1_w: u64 = wide / 1000;
    proof {
        vstd::arithmetic::div_mod::lemma_div_is_ordered(
            scale as int * ratio as int,
            scale as int * 1000,
            1000,
        );
        vstd::arithmetic::div_mod::lemma_div_by_multiple(scale as int, 1000);
    }
    let s1 = s1_w as u32;
    let s2 = scale - s1;
    (s1, s2)
}

pub fn child_velocity_exec(impact: Vec2I, sep: Vec2I) -> (r: Vec2I)
    requires
        vec2_wf(impact),
        sep_wf(sep),
    ensures
        r == child_velocity(impact, sep),
        vec2_wf(r),
{
    let x = frac_3_10_exec(impact.x) + sep.x;
    let y = frac_3_10_exec(impact.y) + sep.y;
    Vec2I { x, y }
}

/// For every parent scale and every ratio in the split range, the two child
/// scales sum exactly to the parent's scale, and fragmentation is aborted
/// exactly when the smaller child would fall below the minimum scale.
pub proof fn lemma_fragmentation_exact(scale: int, ratio: int)
    requires
        0 <= scale,
        RATIO_LO <= ratio <= RATIO_HI,
    ensures
        child_scale_1(scale, ratio) + child_scale_2(scale, ratio) == scale,
        !fragments_ok(scale, ratio) <==> (vstd::math::min(
            child_scale_1(scale, ratio),
            child_scale_2(scale, ratio),
        ) < SCALE_MIN),
{
}

} // verus!
