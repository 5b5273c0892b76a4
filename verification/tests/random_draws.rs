//! The randomness layer: every drawn value lands in its documented range,
//! and the integer square root behind the separation directions is exact.

use asteroid_sim::geometry::Bounds;
use asteroid_sim::rng::{draw_fragment, draw_spawn, isqrt};

fn bounds() -> Bounds {
    Bounds { half_width: 160_000, half_height: 90_000 }
}

#[test]
fn isqrt_exact_values() {
    assert_eq!(isqrt(0), 0);
    assert_eq!(isqrt(1), 1);
    assert_eq!(isqrt(3), 1);
    assert_eq!(isqrt(4), 2);
    assert_eq!(isqrt(24), 4);
    assert_eq!(isqrt(25), 5);
    assert_eq!(isqrt(2_000_000), 1414);
    assert_eq!(isqrt(4_000_000), 2000);
}

#[test]
fn spawn_draws_stay_in_their_ranges() {
    let b = bounds();
    for _ in 0..200 {
        let d = draw_spawn(b);
        assert!((300..600).contains(&d.scale));
        assert!(-b.half_width <= d.pos.x && d.pos.x < b.half_width);
        assert!(-b.half_height <= d.pos.y && d.pos.y < b.half_height);
        assert!((-15_000..15_000).contains(&d.vel.x));
        assert!((-15_000..15_000).contains(&d.vel.y));
        assert!((-2000..2000).contains(&d.angvel));
        assert_eq!(d.vel.x % 1000, 0);
        assert_eq!(d.angvel % 1000, 0);
    }
}

#[test]
fn spawn_draw_varies() {
    let b = bounds();
    let first = draw_spawn(b);
    let mut differs = false;
    for _ in 0..100 {
        let d = draw_spawn(b);
        if d.pos != first.pos || d.scale != first.scale {
            differs = true;
        }
    }
    assert!(differs);
}

#[test]
fn fragment_draws_stay_in_their_ranges() {
    for _ in 0..200 {
        let d = draw_fragment();
        assert!((300..=700).contains(&d.ratio));
        assert!(d.sep1.x.abs() <= 15_000 && d.sep1.y.abs() <= 15_000);
        assert!(d.sep2.x.abs() <= 15_000 && d.sep2.y.abs() <= 15_000);
        // A separation impulse always points somewhere.
        assert!(d.sep1.x != 0 || d.sep1.y != 0);
    }
}
