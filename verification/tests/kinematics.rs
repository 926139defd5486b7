//! Tests for the body's kinematics and the rectangle overlap test.

use dino_runner::dino::Dino;
use dino_runner::rect::Rect;

#[test]
fn jump_from_ground_sets_impulse() {
    // body at ground level, grounded, jump pressed, one 16 ms frame
    let mut d = Dino::new();
    d.update(true, false, 16);
    assert_eq!(d.velocity, -12_000);
    assert!(!d.on_ground);
    // position moved up by 60 * 12_000 * 16 micro-units
    assert_eq!(d.y, 300_000_000 - 11_520_000);
}

#[test]
fn gravity_strictly_increases_velocity_until_landing() {
    let mut d = Dino::new();
    d.update(true, false, 16);
    let mut steps = 0;
    while !d.on_ground {
        let before = d.velocity;
        d.update(false, false, 16);
        if d.on_ground {
            assert_eq!(d.velocity, 0);
        } else {
            assert!(d.velocity > before);
        }
        steps += 1;
        assert!(steps < 10_000, "the body never landed");
    }
    assert_eq!(d.velocity, 0);
    assert_eq!(d.y, 300_000_000);
}

#[test]
fn position_never_exceeds_ground_level() {
    let mut d = Dino::new();
    for i in 0..2_000i64 {
        let jump = i % 40 == 0;
        let release = i % 40 == 7;
        d.update(jump, release, 16);
        assert!(d.y <= 300_000_000);
    }
}

#[test]
fn jump_while_airborne_changes_nothing() {
    let mut d = Dino::new();
    d.update(true, false, 16);
    assert!(!d.on_ground);
    let base = d;
    let mut with_jump = base;
    with_jump.update(true, false, 16);
    let mut without_jump = base;
    without_jump.update(false, false, 16);
    assert_eq!(with_jump, without_jump);
    assert_eq!(with_jump.velocity, without_jump.velocity);
}

#[test]
fn early_release_clamps_to_short_hop() {
    let mut d = Dino::new();
    d.update(true, false, 16);
    assert_eq!(d.velocity, -12_000);
    // -12_000 + 30 * 16 = -11_520 is still faster than the -6_000
    // threshold, so the release cuts it to exactly -6_000
    d.update(false, true, 16);
    assert_eq!(d.velocity, -6_000);
}

#[test]
fn late_release_leaves_velocity_alone() {
    let mut d = Dino::new();
    d.update(true, false, 16);
    // fall until the ascent is slower than the threshold
    while d.velocity < -6_000 {
        d.update(false, false, 16);
    }
    let before = d.velocity;
    d.update(false, true, 16);
    // gravity still acts, but no clamp fires
    assert_eq!(d.velocity, before + 30 * 16);
}

#[test]
fn overlapping_boxes_collide() {
    // body box (50, 300, 50, 50) and obstacle box (60, 300, 20, 40)
    let a = Rect { x: 50_000_000, y: 300_000_000, w: 50_000_000, h: 50_000_000 };
    let b = Rect { x: 60_000_000, y: 300_000_000, w: 20_000_000, h: 40_000_000 };
    assert!(a.overlaps(&b));
}

#[test]
fn distant_boxes_do_not_collide() {
    let a = Rect { x: 50_000_000, y: 300_000_000, w: 50_000_000, h: 50_000_000 };
    let b = Rect { x: 200_000_000, y: 300_000_000, w: 20_000_000, h: 40_000_000 };
    assert!(!a.overlaps(&b));
}

#[test]
fn overlap_is_symmetric() {
    let a = Rect { x: 50_000_000, y: 300_000_000, w: 50_000_000, h: 50_000_000 };
    let b = Rect { x: 60_000_000, y: 300_000_000, w: 20_000_000, h: 40_000_000 };
    let c = Rect { x: 200_000_000, y: 300_000_000, w: 20_000_000, h: 40_000_000 };
    assert_eq!(a.overlaps(&b), b.overlaps(&a));
    assert_eq!(a.overlaps(&c), c.overlaps(&a));
}

#[test]
fn gap_on_one_axis_means_no_overlap() {
    let a = Rect { x: 0, y: 0, w: 10, h: 10 };
    let below = Rect { x: 0, y: 20, w: 10, h: 10 };
    let right = Rect { x: 20, y: 0, w: 10, h: 10 };
    assert!(!a.overlaps(&below));
    assert!(!a.overlaps(&right));
    // touching edges count as overlapping under this convention
    let touching = Rect { x: 10, y: 0, w: 10, h: 10 };
    assert!(a.overlaps(&touching));
}
