//! Bounding-box behaviour: translation shifts position and keeps size,
//! scaling multiplies size and keeps position and composes on the exact
//! grid, and the overlap test is symmetric and reflexive for boxes of
//! positive size.

use ld49::aabb::AABB;
use ld49::math::{Vec2Fx, UNIT};

#[test]
fn test_translation() {
    let aabb = AABB::default();
    let (x_translate, y_translate) = (2 * UNIT, 3 * UNIT);
    let translate_by = Vec2Fx { x: x_translate, y: y_translate };
    let aabb2 = aabb.translate(translate_by);

    assert_eq!(aabb.size, aabb2.size);
    assert_eq!(aabb.pos.x + x_translate, aabb2.pos.x);
    assert_eq!(aabb.pos.y + y_translate, aabb2.pos.y);
}

#[test]
fn test_scale() {
    let aabb = AABB::default();
    let (x_scale, y_scale) = (2 * UNIT, 3 * UNIT);
    let scale_by = Vec2Fx { x: x_scale, y: y_scale };
    let aabb2 = aabb.scale(scale_by);

    assert_eq!(aabb.pos, aabb2.pos);
    assert_eq!(aabb.size.x * x_scale / UNIT, aabb2.size.x);
    assert_eq!(aabb.size.y * y_scale / UNIT, aabb2.size.y);

    let aabb3 = aabb2.scale(scale_by);
    assert_eq!(aabb2.pos, aabb3.pos);
    assert_eq!(aabb2.size.x * x_scale / UNIT, aabb3.size.x);
    assert_eq!(aabb2.size.y * y_scale / UNIT, aabb3.size.y);
}

#[test]
fn test_intersect() {
    let aabb = AABB::default();
    let aabb2 = aabb.translate(Vec2Fx { x: UNIT / 2, y: UNIT / 2 });
    let aabb3 = aabb.translate(Vec2Fx { x: UNIT, y: UNIT });
    let aabb4 = aabb.scale(Vec2Fx { x: 1_100_000, y: 1_100_000 });

    assert!(aabb.intersect(&aabb));
    assert!(aabb.intersect(&aabb2));
    assert!(!aabb.intersect(&aabb3));
    assert!(aabb2.intersect(&aabb3));
    assert!(aabb4.intersect(&aabb));
    assert!(aabb4.intersect(&aabb2));
    assert!(aabb4.intersect(&aabb3));
}

#[test]
fn intersect_is_symmetric() {
    let a = AABB::default().translate(Vec2Fx { x: UNIT / 4, y: 0 });
    let b = AABB::default().scale(Vec2Fx { x: 3 * UNIT, y: 3 * UNIT });
    assert_eq!(a.intersect(&b), b.intersect(&a));
    let c = AABB::default().translate(Vec2Fx { x: 10 * UNIT, y: 0 });
    assert_eq!(a.intersect(&c), c.intersect(&a));
    assert!(!a.intersect(&c));
}

#[test]
fn zero_size_box_misses_itself() {
    // The overlap test is strict, so a degenerate box of zero width does
    // not even intersect itself.
    let flat = AABB::default().scale(Vec2Fx { x: 0, y: UNIT });
    assert!(!flat.intersect(&flat));
}

#[test]
fn scale_composes_on_exact_grid() {
    // Scaling by a half and then by four equals one scaling by two, size
    // for size, whenever the fixed-point products are exact.
    let a = AABB::default();
    let half = Vec2Fx { x: UNIT / 2, y: UNIT / 2 };
    let four = Vec2Fx { x: 4 * UNIT, y: 4 * UNIT };
    let two = Vec2Fx { x: 2 * UNIT, y: 2 * UNIT };
    let stepwise = a.scale(half).scale(four);
    let direct = a.scale(two);
    assert_eq!(stepwise.size, direct.size);
    assert_eq!(stepwise.pos, direct.pos);
}

#[test]
fn from_position_scale_places_and_sizes() {
    let b = AABB::from_position_scale(
        Vec2Fx { x: 7 * UNIT, y: -3 * UNIT },
        Vec2Fx { x: 5 * UNIT, y: 2 * UNIT },
    );
    assert_eq!(b.pos, Vec2Fx { x: 7 * UNIT, y: -3 * UNIT });
    assert_eq!(b.size, Vec2Fx { x: 5 * UNIT, y: 2 * UNIT });
}
