//! Fixed-point arithmetic leaves: the integer square root, vector
//! normalization and the facing direction derived from an angle.

use ld49::component::Transform;
use ld49::math::{isqrt_i64, vec2_normalized, UNIT};

#[test]
fn integer_square_root_rounds_down() {
    assert_eq!(isqrt_i64(0), 0);
    assert_eq!(isqrt_i64(1), 1);
    assert_eq!(isqrt_i64(3), 1);
    assert_eq!(isqrt_i64(15), 3);
    assert_eq!(isqrt_i64(16), 4);
    assert_eq!(isqrt_i64(1_000_000_000_000), 1_000_000);
    assert_eq!(isqrt_i64(i64::MAX), 3_037_000_499);
}

#[test]
fn normalization_gives_fixed_point_unit_vectors() {
    let down = vec2_normalized(0, -UNIT);
    assert_eq!(down.x, 0);
    assert_eq!(down.y, -UNIT);

    let diagonal = vec2_normalized(UNIT, UNIT);
    // Both components equal a unit over the square root of two, within
    // rounding.
    assert_eq!(diagonal.x, diagonal.y);
    assert!(707_106 - 2 <= diagonal.x && diagonal.x <= 707_107);
}

#[test]
fn facing_follows_the_rotation_angle() {
    let up = Transform::default();
    let f = up.get_facing_vector();
    assert_eq!(f.x, 0);
    // The rational sine approximation lands one micro-unit short of a
    // full unit at a quarter turn.
    assert_eq!(f.y, UNIT - 1);

    // A quarter turn to the left points the facing along the negative
    // horizontal axis, within the sine approximation's tolerance.
    let mut quarter = Transform::default();
    quarter.rotation = 1_570_796;
    let f2 = quarter.get_facing_vector();
    assert!(f2.x <= -995_000);
    assert!(f2.y.abs() <= 5_000);
}
