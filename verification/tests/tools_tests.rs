use platformer_core::tools::div_trunc_i64;
use platformer_core::tools::isqrt;
use platformer_core::tools::lerp;
use platformer_core::vec2::Vec2i;

#[test]
fn division_truncates_toward_zero() {
    assert_eq!(div_trunc_i64(2500, 1000), 2);
    assert_eq!(div_trunc_i64(-2500, 1000), -2);
    assert_eq!(div_trunc_i64(999, 1000), 0);
    assert_eq!(div_trunc_i64(-999, 1000), 0);
}

#[test]
fn lerp_interpolates_in_thousandths() {
    assert_eq!(lerp(0, 1000, 0), 0);
    assert_eq!(lerp(0, 1000, 500), 500);
    assert_eq!(lerp(0, 1000, 1000), 1000);
    assert_eq!(lerp(500_000, 100_000, 500), 300_000);
    assert_eq!(lerp(-1000, 1000, 250), -500);
}

#[test]
fn isqrt_rounds_down() {
    assert_eq!(isqrt(0), 0);
    assert_eq!(isqrt(1), 1);
    assert_eq!(isqrt(24), 4);
    assert_eq!(isqrt(25), 5);
    assert_eq!(isqrt(2_500_000_000), 50_000);
    assert_eq!(isqrt(u64::MAX), 0xffff_ffff);
}

#[test]
fn normalize_keeps_the_heading() {
    let v = Vec2i { x: 30_000, y: -40_000 };
    assert_eq!(v.normalize_milli(), Vec2i { x: 600, y: -800 });
    let v = Vec2i { x: 0, y: 5 };
    assert_eq!(v.normalize_milli(), Vec2i { x: 0, y: 1000 });
    // A diagonal splits into about seven hundred thousandths each way.
    let v = Vec2i { x: 1000, y: 1000 };
    assert_eq!(v.normalize_milli(), Vec2i { x: 707, y: 707 });
}

#[test]
fn rotation_follows_the_compass_table() {
    let v = Vec2i { x: 10_000, y: 0 };
    assert_eq!(v.rotate_octant(0), Vec2i { x: 10_000, y: 0 });
    assert_eq!(v.rotate_octant(90), Vec2i { x: 0, y: 10_000 });
    assert_eq!(v.rotate_octant(180), Vec2i { x: -10_000, y: 0 });
    assert_eq!(v.rotate_octant(270), Vec2i { x: 0, y: -10_000 });
    assert_eq!(v.rotate_octant(45), Vec2i { x: 7_070, y: 7_070 });
    assert_eq!(v.rotate_octant(315), Vec2i { x: 7_070, y: -7_070 });
}
