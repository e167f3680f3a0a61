//! Axis-aligned bounding boxes over fixed-point coordinates: the value type
//! that collision testing is built on. A box is a centre position and a
//! size; two boxes overlap when, on both axes, twice the distance between
//! their centres is less than the sum of their sizes.

use vstd::prelude::*;

use crate::math::{Vec2Fx, UNIT};

verus! {

/// Coordinate bound under which every box operation here is free of
/// overflow: positions stay below it in magnitude and sizes below it
/// outright, with room for the doubling and the sums that `intersect` does.
pub const AABB_COORD_LIMIT: i64 = 2_000_000_000_000_000_000;

/// An axis-aligned bounding box: centre position and size, in micro-units.
#[derive(Clone, Copy, Debug, PartialEq, Eq, Structural)]
pub struct AABB {
    pub pos: Vec2Fx,
    pub size: Vec2Fx,
}

impl Default for AABB {
    /// The unit box at the origin.
    fn default() -> (r: AABB)
        ensures
            r == AABB::unit_spec(),
    {
        AABB::unit()
    }
}

impl AABB {
    /// A box is well formed when its coordinates are small enough for the
    /// arithmetic of `translate`, `scale` and `intersect`, and its size is
    /// non-negative.
    pub open spec fn wf(self) -> bool {
        &&& -AABB_COORD_LIMIT <= self.pos.x <= AABB_COORD_LIMIT
        &&& -AABB_COORD_LIMIT <= self.pos.y <= AABB_COORD_LIMIT
        &&& 0 <= self.size.x <= AABB_COORD_LIMIT
        &&& 0 <= self.size.y <= AABB_COORD_LIMIT
    }

    /// The box `translate` returns: position shifted, size kept.
    pub open spec fn spec_translate(self, v: Vec2Fx) -> AABB {
        AABB { pos: Vec2Fx { x: (self.pos.x + v.x) as i64, y: (self.pos.y + v.y) as i64 }, size: self.size }
    }

    /// The box `scale` returns: position kept, size multiplied componentwise
    /// by a fixed-point factor (micro-units, so `UNIT` is a factor of one).
    pub open spec fn spec_scale(self, v: Vec2Fx) -> AABB {
        AABB {
            pos: self.pos,
            size: Vec2Fx {
                x: (self.size.x * v.x / (UNIT as int)) as i64,
                y: (self.size.y * v.y / (UNIT as int)) as i64,
            },
        }
    }

    /// What `intersect` decides: on both axes, twice the centre distance is
    /// less than the sum of the sizes.
    pub open spec fn spec_intersect(self, other: AABB) -> bool {
        &&& 2 * abs_int(self.pos.x - other.pos.x) < self.size.x + other.size.x
        &&& 2 * abs_int(self.pos.y - other.pos.y) < self.size.y + other.size.y
    }

    /// Unit box at the origin.
    pub fn unit() -> (r: AABB)
        ensures
            r.pos.x == 0 && r.pos.y == 0,
            r.size.x == UNIT && r.size.y == UNIT,
            r.wf(),
    {
        AABB { pos: Vec2Fx { x: 0, y: 0 }, size: Vec2Fx { x: UNIT, y: UNIT } }
    }

    /// The unit box moved to `position` and scaled by `scale`: a box of size
    /// `scale` centred at `position`.
    pub fn from_position_scale(position: Vec2Fx, scale: Vec2Fx) -> (r: AABB)
        requires
            -AABB_COORD_LIMIT <= position.x <= AABB_COORD_LIMIT,
            -AABB_COORD_LIMIT <= position.y <= AABB_COORD_LIMIT,
            0 <= scale.x,
            0 <= scale.y,
            UNIT * scale.x <= i64::MAX,
            UNIT * scale.y <= i64::MAX,
        ensures
            r == AABB::unit_spec().spec_translate(position).spec_scale(scale),
            r.pos == position,
            r.size == scale,
    {
        let r = AABB::unit().translate(position).scale(scale);
        proof {
            crate::math::lemma_mul_div_cancel(scale.x as int, UNIT as int);
            crate::math::lemma_mul_div_cancel(scale.y as int, UNIT as int);
        }
        r
    }

    /// The unit box as a specification value.
    pub open spec fn unit_spec() -> AABB {
        AABB { pos: Vec2Fx { x: 0, y: 0 }, size: Vec2Fx { x: UNIT as i64, y: UNIT as i64 } }
    }

    /// Shift the box by `vector`; the size is untouched.
    pub fn translate(&self, vector: Vec2Fx) -> (r: AABB)
        requires
            i64::MIN <= self.pos.x + vector.x <= i64::MAX,
            i64::MIN <= self.pos.y + vector.y <= i64::MAX,
        ensures
            r == self.spec_translate(vector),
            r.size == self.size,
            r.pos.x == self.pos.x + vector.x,
            r.pos.y == self.pos.y + vector.y,
    {
        AABB { pos: self.pos.add(vector), size: self.size }
    }

    /// Multiply the size componentwise by the fixed-point factor `vector`;
    /// the position is untouched.
    pub fn scale(&self, vector: Vec2Fx) -> (r: AABB)
        requires
            0 <= self.size.x,
            0 <= self.size.y,
            0 <= vector.x,
            0 <= vector.y,
            self.size.x * vector.x <= i64::MAX,
            self.size.y * vector.y <= i64::MAX,
        ensures
            r == self.spec_scale(vector),
            r.pos == self.pos,
            r.size.x == self.size.x * vector.x / (UNIT as int),
            r.size.y == self.size.y * vector.y / (UNIT as int),
            0 <= r.size.x,
            0 <= r.size.y,
    {
        let sx: i64 = mul_nonneg(self.size.x, vector.x);
        let sy: i64 = mul_nonneg(self.size.y, vector.y);
        proof {
            crate::math::lemma_div_nonneg(sx as int, UNIT as int);
            crate::math::lemma_div_nonneg(sy as int, UNIT as int);
        }
        AABB { pos: self.pos, size: Vec2Fx { x: sx / UNIT, y: sy / UNIT } }
    }

    /// Overlap test: true when on both axes twice the centre distance is
    /// less than the sum of the sizes.
    pub fn intersect(&self, other: &AABB) -> (r: bool)
        requires
            self.wf(),
            other.wf(),
        ensures
            r == self.spec_intersect(*other),
    {
        let dx: i64 = abs_i64(self.pos.x - other.pos.x);
        let dy: i64 = abs_i64(self.pos.y - other.pos.y);
        2 * dx < self.size.x + other.size.x && 2 * dy < self.size.y + other.size.y
    }
}

/// Absolute value over mathematical integers.
pub open spec fn abs_int(x: int) -> int {
    if x < 0 {
        -x
    } else {
        x
    }
}

/// Absolute value on `i64`.
fn abs_i64(x: i64) -> (r: i64)
    requires
        x != i64::MIN,
    ensures
        r == abs_int(x as int),
{
    if x < 0 {
        -x
    } else {
        x
    }
}

/// Product of two non-negative `i64` values, proved in range.
fn mul_nonneg(a: i64, b: i64) -> (r: i64)
    requires
        0 <= a,
        0 <= b,
        a * b <= i64::MAX,
    ensures
        r == a * b,
{
    proof {
        assert(0 <= a * b) by (nonlinear_arith)
            requires 0 <= a, 0 <= b;
    }
    a * b
}

/// `translate` preserves size and shifts position by exactly the
/// translation vector.
pub proof fn lemma_translate_shifts(a: AABB, v: Vec2Fx)
    ensures
        a.spec_translate(v).size == a.size,
        a.spec_translate(v).pos.x == (a.pos.x + v.x) as i64,
        a.spec_translate(v).pos.y == (a.pos.y + v.y) as i64,
{
}

/// `scale` preserves position and multiplies size componentwise.
pub proof fn lemma_scale_multiplies(a: AABB, v: Vec2Fx)
    ensures
        a.spec_scale(v).pos == a.pos,
        a.spec_scale(v).size.x == (a.size.x * v.x / (UNIT as int)) as i64,
        a.spec_scale(v).size.y == (a.size.y * v.y / (UNIT as int)) as i64,
{
}

/// Scaling by `u` and then by `v` is, in size terms, one scaling by the
/// fixed-point product of `u` and `v`, wherever the fixed-point products are
/// exact (each multiplication divisible by `UNIT`); with rounding in between
/// the two sides can differ, so the law is stated on the exact grid.
pub proof fn lemma_scale_compose(a: AABB, u: Vec2Fx, v: Vec2Fx)
    requires
        0 <= a.size.x,
        0 <= a.size.y,
        0 <= u.x,
        0 <= u.y,
        0 <= v.x,
        0 <= v.y,
        a.size.x * u.x % (UNIT as int) == 0,
        a.size.y * u.y % (UNIT as int) == 0,
        u.x * v.x % (UNIT as int) == 0,
        u.y * v.y % (UNIT as int) == 0,
        a.size.x * u.x <= i64::MAX,
        a.size.y * u.y <= i64::MAX,
        a.size.x * u.x / (UNIT as int) * v.x <= i64::MAX,
        a.size.y * u.y / (UNIT as int) * v.y <= i64::MAX,
        u.x * v.x <= i64::MAX,
        u.y * v.y <= i64::MAX,
    ensures
        a.spec_scale(u).spec_scale(v).size
            == a.spec_scale(Vec2Fx { x: (u.x * v.x / (UNIT as int)) as i64, y: (u.y * v.y / (UNIT as int)) as i64 }).size,
{
    lemma_scale_compose_axis(a.size.x as int, u.x as int, v.x as int);
    lemma_scale_compose_axis(a.size.y as int, u.y as int, v.y as int);
    lemma_scale_cast_bounds(a.size.x as int, u.x as int, v.x as int);
    lemma_scale_cast_bounds(a.size.y as int, u.y as int, v.y as int);
}

/// Every intermediate value in the two-step and the one-step scaling of one
/// axis stays inside `i64`, so the fixed-point casts in `spec_scale` are
/// lossless.
proof fn lemma_scale_cast_bounds(s: int, u: int, v: int)
    requires
        0 <= s,
        0 <= u,
        0 <= v,
        s * u % (UNIT as int) == 0,
        u * v % (UNIT as int) == 0,
        s * u <= i64::MAX,
        s * u / (UNIT as int) * v <= i64::MAX,
        u * v <= i64::MAX,
    ensures
        0 <= s * u / (UNIT as int) <= i64::MAX,
        0 <= s * u / (UNIT as int) * v <= i64::MAX,
        0 <= s * u / (UNIT as int) * v / (UNIT as int) <= i64::MAX,
        0 <= u * v / (UNIT as int) <= i64::MAX,
        0 <= s * (u * v / (UNIT as int)) <= i64::MAX,
        0 <= s * (u * v / (UNIT as int)) / (UNIT as int) <= i64::MAX,
{
    let w: int = UNIT as int;
    assert(0 <= s * u) by (nonlinear_arith)
        requires 0 <= s, 0 <= u;
    assert(0 <= u * v) by (nonlinear_arith)
        requires 0 <= u, 0 <= v;
    crate::math::lemma_div_nonneg(s * u, w);
    crate::math::lemma_div_le_num(s * u, w);
    crate::math::lemma_div_nonneg(u * v, w);
    crate::math::lemma_div_le_num(u * v, w);
    assert(0 <= s * u / w * v) by (nonlinear_arith)
        requires 0 <= s * u / w, 0 <= v;
    crate::math::lemma_div_nonneg(s * u / w * v, w);
    crate::math::lemma_div_le_num(s * u / w * v, w);
    lemma_scale_compose_axis(s, u, v);
    crate::math::lemma_div_nonneg(s * (u * v / w), w);
    crate::math::lemma_div_le_num(s * (u * v / w), w);
}

/// One axis of `lemma_scale_compose`: with `s u` and `u v` both divisible by
/// `UNIT`, `(s u / UNIT) v / UNIT == s (u v / UNIT) / UNIT`.
proof fn lemma_scale_compose_axis(s: int, u: int, v: int)
    requires
        0 <= s,
        0 <= u,
        0 <= v,
        s * u % (UNIT as int) == 0,
        u * v % (UNIT as int) == 0,
    ensures
        (s * u / (UNIT as int)) * v == s * (u * v / (UNIT as int)),
        (s * u / (UNIT as int)) * v / (UNIT as int) == s * (u * v / (UNIT as int)) / (UNIT as int),
{
    let w: int = UNIT as int;
    let p: int = s * u / w;
    let q: int = u * v / w;
    assert(s * u == p * w);
    assert(u * v == q * w);
    assert(p * v * w == s * q * w) by (nonlinear_arith)
        requires
            s * u == p * w,
            u * v == q * w;
    assert(p * v == s * q) by (nonlinear_arith)
        requires
            p * v * w == s * q * w,
            w == UNIT as int;
}

/// `intersect` is symmetric.
pub proof fn lemma_intersect_symmetric(a: AABB, b: AABB)
    ensures
        a.spec_intersect(b) == b.spec_intersect(a),
{
}

/// Any box of strictly positive size intersects itself; a degenerate box of
/// zero width or height does not, since the overlap test is strict.
pub proof fn lemma_intersect_self(a: AABB)
    requires
        a.size.x > 0,
        a.size.y > 0,
    ensures
        a.spec_intersect(a),
{
}

} // verus!
