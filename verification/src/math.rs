//! Fixed-point arithmetic for the simulation core.
//!
//! A world coordinate is an `i64` counted in micro-units: `UNIT` micro-units
//! make one world unit. Angles are counted in microradians, time in
//! milliseconds. Per-second rates are also micro-unit values, so the change
//! over a tick of `dt` milliseconds is `rate * dt / MS_PER_S`.

use vstd::prelude::*;

verus! {

/// Micro-units per world unit.
pub const UNIT: i64 = 1_000_000;

/// Milliseconds per second; divisor when integrating a per-second rate.
pub const MS_PER_S: i64 = 1000;

/// A full turn, in microradians (2 * pi, rounded down).
pub const TAU_URAD: i64 = 6_283_185;

/// A half turn, in milliradians (pi, rounded down). The sine approximation
/// works in milliradians so that its intermediate products fit in an `i64`.
pub const PI_MRAD: i64 = 3141;

/// A full turn, in milliradians.
pub const TAU_MRAD: i64 = 6283;

/// A 2D vector of fixed-point coordinates, in micro-units.
#[derive(Clone, Copy, Debug, PartialEq, Eq, Structural)]
pub struct Vec2Fx {
    pub x: i64,
    pub y: i64,
}

/// The mathematical clamp of `x` into `[lo, hi]`.
pub open spec fn spec_clamp(x: int, lo: int, hi: int) -> int {
    if x < lo {
        lo
    } else if x > hi {
        hi
    } else {
        x
    }
}

/// Clamp `x` into `[lo, hi]`.
pub fn clamp_i64(x: i64, lo: i64, hi: i64) -> (r: i64)
    requires
        lo <= hi,
    ensures
        r == spec_clamp(x as int, lo as int, hi as int),
{
    if x < lo {
        lo
    } else if x > hi {
        hi
    } else {
        x
    }
}

impl Vec2Fx {
    /// The zero vector.
    pub fn zero() -> (r: Vec2Fx)
        ensures
            r.x == 0 && r.y == 0,
    {
        Vec2Fx { x: 0, y: 0 }
    }

    /// Componentwise sum.
    pub fn add(&self, other: Vec2Fx) -> (r: Vec2Fx)
        requires
            i64::MIN <= self.x + other.x <= i64::MAX,
            i64::MIN <= self.y + other.y <= i64::MAX,
        ensures
            r.x == self.x + other.x,
            r.y == self.y + other.y,
    {
        Vec2Fx { x: self.x + other.x, y: self.y + other.y }
    }
}

/// The sine of `x` milliradians, in micro-units, for `x` in `[0, PI_MRAD]`:
/// Bhaskara's rational approximation `16 x (pi - x) / (5 pi^2 - 4 x (pi - x))`,
/// scaled to micro-units and rounded down.
pub open spec fn spec_sin_half_mrad(x: int) -> int {
    (16 * x * (PI_MRAD - x) * UNIT) / (5 * PI_MRAD * PI_MRAD - 4 * x * (PI_MRAD - x))
}

/// The sine of `x` milliradians, in micro-units, for `x` in `[0, TAU_MRAD]`:
/// the half-turn approximation, negated on the second half turn.
pub open spec fn spec_sin_mrad(x: int) -> int {
    if x <= PI_MRAD {
        spec_sin_half_mrad(x)
    } else {
        -spec_sin_half_mrad(x - (PI_MRAD + 1))
    }
}

/// The cosine of `x` milliradians, in micro-units: the sine a quarter turn
/// ahead, wrapped back into `[0, TAU_MRAD]`.
pub open spec fn spec_cos_mrad(x: int) -> int {
    if x + 1571 <= TAU_MRAD {
        spec_sin_mrad(x + 1571)
    } else {
        spec_sin_mrad(x + 1571 - (TAU_MRAD + 1))
    }
}

/// `x (pi - x)` stays within `[0, (pi/2)^2]` on `[0, pi]`; both bounds are
/// needed to show the sine approximation is defined and within one unit.
proof fn lemma_half_turn_product_bounds(x: int)
    requires
        0 <= x <= PI_MRAD,
    ensures
        0 <= x * (PI_MRAD - x),
        x * (PI_MRAD - x) <= 2_466_470,
{
    assert(0 <= x * (PI_MRAD - x)) by (nonlinear_arith)
        requires 0 <= x <= PI_MRAD;
    assert((x - 1570) * (x - 1571) >= 0) by (nonlinear_arith);
    assert(x * (PI_MRAD - x) <= 2_466_470) by (nonlinear_arith)
        requires (x - 1570) * (x - 1571) >= 0, PI_MRAD == 3141;
}

/// Division of a non-negative numerator by a positive divisor never exceeds
/// the numerator's quotient bound.
pub proof fn lemma_div_bound(num: int, den: int, bound: int)
    requires
        0 <= num,
        0 < den,
        num <= bound * den,
    ensures
        num / den <= bound,
{
    assert(num / den <= bound) by (nonlinear_arith)
        requires 0 <= num, 0 < den, num <= bound * den;
}

/// Division of a non-negative numerator by a positive divisor is
/// non-negative.
pub proof fn lemma_div_nonneg(num: int, den: int)
    requires
        0 <= num,
        0 < den,
    ensures
        0 <= num / den,
{
    assert(0 <= num / den) by (nonlinear_arith)
        requires 0 <= num, 0 < den;
}

/// Multiplying by a positive divisor and dividing by it again is the
/// identity.
pub proof fn lemma_mul_div_cancel(a: int, den: int)
    requires
        0 < den,
    ensures
        a * den / den == a,
        den * a / den == a,
{
    assert(a * den / den == a) by (nonlinear_arith)
        requires 0 < den;
    assert(den * a == a * den) by (nonlinear_arith);
}

/// Division by a divisor of at least one does not increase a non-negative
/// numerator.
pub proof fn lemma_div_le_num(num: int, den: int)
    requires
        0 <= num,
        1 <= den,
    ensures
        num / den <= num,
{
    assert(num / den <= num) by (nonlinear_arith)
        requires 0 <= num, 1 <= den;
}

/// The truncating fixed-point product `a * b / UNIT`, rounded toward zero
/// as the machine division does.
pub open spec fn spec_mul_unit(a: int, b: int) -> int {
    if a * b >= 0 {
        a * b / (UNIT as int)
    } else {
        -((-(a * b)) / (UNIT as int))
    }
}

/// Fixed-point multiply: `a * b / UNIT`, rounded toward zero.
pub fn mul_unit(a: i64, b: i64) -> (r: i64)
    requires
        -i64::MAX <= a * b <= i64::MAX,
    ensures
        r == spec_mul_unit(a as int, b as int),
{
    proof {
        lemma_mul_sign(a as int, b as int);
    }
    let p: i64 = a * b;
    if p >= 0 {
        proof {
            lemma_div_nonneg(p as int, UNIT as int);
            lemma_div_le_num(p as int, UNIT as int);
        }
        p / UNIT
    } else {
        let q: i64 = -p;
        proof {
            lemma_div_nonneg(q as int, UNIT as int);
            lemma_div_le_num(q as int, UNIT as int);
        }
        -(q / UNIT)
    }
}

/// The sign of a product follows the signs of its factors.
pub proof fn lemma_mul_sign(a: int, b: int)
    ensures
        a >= 0 && b >= 0 ==> a * b >= 0,
        a <= 0 && b <= 0 ==> a * b >= 0,
        a >= 0 && b <= 0 ==> a * b <= 0,
        a <= 0 && b >= 0 ==> a * b <= 0,
{
    assert(a >= 0 && b >= 0 ==> a * b >= 0) by (nonlinear_arith);
    assert(a <= 0 && b <= 0 ==> a * b >= 0) by (nonlinear_arith);
    assert(a >= 0 && b <= 0 ==> a * b <= 0) by (nonlinear_arith);
    assert(a <= 0 && b >= 0 ==> a * b <= 0) by (nonlinear_arith);
}

/// The truncating fixed-point product never exceeds `b` in magnitude when
/// the factor `a` is within one unit.
pub proof fn lemma_mul_unit_bound(a: int, b: int)
    requires
        -UNIT <= a <= UNIT,
    ensures
        b >= 0 ==> -b <= spec_mul_unit(a, b) <= b,
        b < 0 ==> b <= spec_mul_unit(a, b) <= -b,
{
    let w: int = UNIT as int;
    lemma_mul_sign(a, b);
    if a * b >= 0 {
        lemma_div_nonneg(a * b, w);
        assert(a * b <= w * b || a * b <= w * -b) by (nonlinear_arith)
            requires -w <= a <= w;
        if b >= 0 {
            lemma_div_bound(a * b, w, b);
        } else {
            lemma_div_bound(a * b, w, -b);
        }
    } else {
        lemma_div_nonneg(-(a * b), w);
        assert(-(a * b) <= w * b || -(a * b) <= w * -b) by (nonlinear_arith)
            requires -w <= a <= w;
        if b >= 0 {
            lemma_div_bound(-(a * b), w, b);
        } else {
            lemma_div_bound(-(a * b), w, -b);
        }
    }
}

/// Linear interpolation by a fraction `t` within one unit keeps the result
/// between the two endpoints' bounds.
pub proof fn lemma_lerp_in_box(d: int, f: int, t: int, lo: int, hi: int)
    requires
        lo <= d <= hi,
        lo <= f <= hi,
        0 <= t <= UNIT,
    ensures
        lo <= d + spec_mul_unit(f - d, t) <= hi,
{
    let w: int = UNIT as int;
    let p: int = (f - d) * t;
    lemma_mul_sign(f - d, t);
    if f - d >= 0 {
        assert(p >= 0);
        lemma_div_nonneg(p, w);
        assert(p <= (f - d) * w) by (nonlinear_arith)
            requires p == (f - d) * t, 0 <= t <= w, f - d >= 0;
        lemma_div_bound(p, w, f - d);
        assert(d <= d + spec_mul_unit(f - d, t) <= f);
    } else {
        assert(p <= 0);
        lemma_div_nonneg(-p, w);
        assert(-p <= (d - f) * w) by (nonlinear_arith)
            requires p == (f - d) * t, 0 <= t <= w, f - d < 0;
        lemma_div_bound(-p, w, d - f);
        assert(f <= d + spec_mul_unit(f - d, t) <= d);
    }
}

/// Magnitude bounds multiply: factors bounded in magnitude give a product
/// bounded by the product of the bounds.
pub proof fn lemma_abs_mul_le(a: int, b: int, aa: int, bb: int)
    requires
        -aa <= a <= aa,
        -bb <= b <= bb,
        0 <= aa,
        0 <= bb,
    ensures
        -(aa * bb) <= a * b <= aa * bb,
{
    assert(-(aa * bb) <= a * b <= aa * bb) by (nonlinear_arith)
        requires -aa <= a <= aa, -bb <= b <= bb, 0 <= aa, 0 <= bb;
}

/// One-step angle wrap into `[0, TAU_URAD)`, for angles less than one turn
/// outside the range.
pub open spec fn spec_wrap_angle(a: int) -> int {
    if a < 0 {
        a + TAU_URAD
    } else if a >= TAU_URAD {
        a - TAU_URAD
    } else {
        a
    }
}

/// Wrap an angle into `[0, TAU_URAD)`; the input may stray less than one
/// turn beyond either end.
pub fn wrap_angle(a: i64) -> (r: i64)
    requires
        -TAU_URAD <= a < 2 * TAU_URAD,
    ensures
        r == spec_wrap_angle(a as int),
        0 <= r < TAU_URAD,
{
    if a < 0 {
        a + TAU_URAD
    } else if a >= TAU_URAD {
        a - TAU_URAD
    } else {
        a
    }
}

/// Sine over a half turn, `x` in milliradians in `[0, PI_MRAD]`, result in
/// micro-units in `[0, UNIT]`.
fn sin_half_mrad(x: i64) -> (r: i64)
    requires
        0 <= x <= PI_MRAD,
    ensures
        r == spec_sin_half_mrad(x as int),
        0 <= r <= UNIT,
{
    proof {
        lemma_half_turn_product_bounds(x as int);
    }
    let p: i64 = x * (PI_MRAD - x);
    let num: i64 = 16 * p * UNIT;
    let den: i64 = 5 * PI_MRAD * PI_MRAD - 4 * p;
    proof {
        assert(den >= 5 * PI_MRAD * PI_MRAD - 4 * 2_466_470);
        assert(num <= UNIT * den) by (nonlinear_arith)
            requires
                num == 16 * p * UNIT,
                den == 5 * PI_MRAD * PI_MRAD - 4 * p,
                0 <= p <= 2_466_470,
                PI_MRAD == 3141,
                UNIT == 1_000_000;
        lemma_div_bound(num as int, den as int, UNIT as int);
        assert(num / den >= 0) by (nonlinear_arith)
            requires num >= 0, den > 0;
        assert(num == 16 * (x as int) * (PI_MRAD - x as int) * UNIT) by (nonlinear_arith)
            requires
                p == (x as int) * (PI_MRAD - x as int),
                num == 16 * (p as int) * UNIT;
        assert(den == 5 * PI_MRAD * PI_MRAD - 4 * (x as int) * (PI_MRAD - x as int))
            by (nonlinear_arith)
            requires
                p == (x as int) * (PI_MRAD - x as int),
                den == 5 * PI_MRAD * PI_MRAD - 4 * (p as int);
    }
    num / den
}

/// Sine over a full turn, `x` in milliradians in `[0, TAU_MRAD]`, result in
/// micro-units in `[-UNIT, UNIT]`.
pub fn sin_mrad(x: i64) -> (r: i64)
    requires
        0 <= x <= TAU_MRAD,
    ensures
        r == spec_sin_mrad(x as int),
        -UNIT <= r <= UNIT,
{
    if x <= PI_MRAD {
        sin_half_mrad(x)
    } else {
        let s = sin_half_mrad(x - (PI_MRAD + 1));
        -s
    }
}

/// Cosine over a full turn, `x` in milliradians in `[0, TAU_MRAD]`, result in
/// micro-units in `[-UNIT, UNIT]`.
pub fn cos_mrad(x: i64) -> (r: i64)
    requires
        0 <= x <= TAU_MRAD,
    ensures
        r == spec_cos_mrad(x as int),
        -UNIT <= r <= UNIT,
{
    if x + 1571 <= TAU_MRAD {
        sin_mrad(x + 1571)
    } else {
        sin_mrad(x + 1571 - (TAU_MRAD + 1))
    }
}

/// Truncating (round-toward-zero) division, as the machine division does.
pub open spec fn spec_div_trunc(a: int, b: int) -> int {
    if a >= 0 {
        a / b
    } else {
        -((-a) / b)
    }
}

/// The integer square root: the unique non-negative `r` with
/// `r * r <= n < (r + 1) * (r + 1)`.
pub open spec fn spec_isqrt(n: int) -> int {
    choose|r: int| 0 <= r && #[trigger] (r * r) <= n < (r + 1) * (r + 1)
}

/// Any value with the square-root property is the integer square root:
/// the property determines it uniquely.
pub proof fn lemma_isqrt_unique(n: int, r: int)
    requires
        0 <= r,
        r * r <= n,
        n < (r + 1) * (r + 1),
    ensures
        spec_isqrt(n) == r,
{
    assert(0 <= r && r * r <= n < (r + 1) * (r + 1));
    let c = spec_isqrt(n);
    assert(0 <= c && c * c <= n < (c + 1) * (c + 1));
    assert(c == r) by (nonlinear_arith)
        requires
            0 <= r,
            r * r <= n,
            n < (r + 1) * (r + 1),
            0 <= c,
            c * c <= n,
            n < (c + 1) * (c + 1);
}

/// Integer square root by bisection.
pub fn isqrt_i64(n: i64) -> (r: i64)
    requires
        0 <= n,
    ensures
        r == spec_isqrt(n as int),
        0 <= r,
        r * r <= n,
        n < (r + 1) * (r + 1),
{
    let mut lo: i64 = 0;
    let mut hi: i64 = 3_037_000_500;
    proof {
        assert(3_037_000_500int * 3_037_000_500int > i64::MAX);
    }
    while lo + 1 < hi
        invariant
            0 <= lo < hi <= 3_037_000_500,
            lo * lo <= n,
            (hi as int) * (hi as int) > n,
            n <= i64::MAX,
        decreases hi - lo,
    {
        let mid: i64 = lo + (hi - lo) / 2;
        proof {
            lemma_abs_mul_le(mid as int, mid as int, 3_037_000_499, 3_037_000_499);
            assert(3_037_000_499int * 3_037_000_499int <= i64::MAX);
        }
        if mid * mid <= n {
            lo = mid;
        } else {
            hi = mid;
        }
    }
    proof {
        lemma_isqrt_unique(n as int, lo as int);
    }
    lo
}

/// The fixed-point unit vector in the direction of `(x, y)`: each
/// component scaled by `UNIT` and divided (toward zero) by the Euclidean
/// length rounded down.
pub open spec fn spec_normalized(x: int, y: int) -> Vec2Fx {
    Vec2Fx {
        x: spec_div_trunc(x * UNIT, spec_isqrt(x * x + y * y)) as i64,
        y: spec_div_trunc(y * UNIT, spec_isqrt(x * x + y * y)) as i64,
    }
}

/// Normalize a fixed-point vector of at most unit-sized components to
/// (fixed-point) unit length. The result's components stay within one
/// unit in magnitude.
pub fn vec2_normalized(x: i64, y: i64) -> (r: Vec2Fx)
    requires
        -UNIT <= x <= UNIT,
        -UNIT <= y <= UNIT,
        x != 0 || y != 0,
    ensures
        r == spec_normalized(x as int, y as int),
        -UNIT <= r.x <= UNIT,
        -UNIT <= r.y <= UNIT,
{
    proof {
        lemma_abs_mul_le(x as int, x as int, UNIT as int, UNIT as int);
        lemma_abs_mul_le(y as int, y as int, UNIT as int, UNIT as int);
        lemma_mul_sign(x as int, x as int);
        lemma_mul_sign(y as int, y as int);
    }
    let nsq: i64 = x * x + y * y;
    let len: i64 = isqrt_i64(nsq);
    proof {
        if x != 0 {
            assert(1 <= x * x) by (nonlinear_arith)
                requires x != 0;
        }
        if y != 0 {
            assert(1 <= y * y) by (nonlinear_arith)
                requires y != 0;
        }
        assert(1 <= nsq);
        assert(1 <= len) by (nonlinear_arith)
            requires 0 <= len, len * len <= nsq, nsq < (len + 1) * (len + 1), 1 <= nsq;
        assert(x * x <= nsq && y * y <= nsq);
        assert(-len <= x <= len) by (nonlinear_arith)
            requires 0 <= len, x * x <= nsq, nsq < (len + 1) * (len + 1);
        assert(-len <= y <= len) by (nonlinear_arith)
            requires 0 <= len, y * y <= nsq, nsq < (len + 1) * (len + 1);
    }
    let rx = scaled_component(x, len);
    let ry = scaled_component(y, len);
    Vec2Fx { x: rx, y: ry }
}

/// One component of a normalization: `c * UNIT / len`, rounded toward
/// zero, for `|c| <= len`; the result is within one unit in magnitude.
fn scaled_component(c: i64, len: i64) -> (r: i64)
    requires
        1 <= len,
        -len <= c <= len,
        -UNIT <= c <= UNIT,
    ensures
        r == spec_div_trunc(c as int * UNIT, len as int),
        -UNIT <= r <= UNIT,
{
    proof {
        lemma_abs_mul_le(c as int, UNIT as int, UNIT as int, UNIT as int);
        lemma_mul_sign(c as int, UNIT as int);
    }
    if c >= 0 {
        proof {
            assert(c * UNIT <= len * UNIT) by (nonlinear_arith)
                requires c <= len, 0 < UNIT;
            lemma_div_nonneg(c as int * UNIT, len as int);
            lemma_div_bound(c as int * UNIT, len as int, UNIT as int);
        }
        (c * UNIT) / len
    } else {
        let m: i64 = -c;
        proof {
            assert(m * UNIT <= len * UNIT) by (nonlinear_arith)
                requires m <= len, 0 < UNIT;
            lemma_div_nonneg(m as int * UNIT, len as int);
            lemma_div_bound(m as int * UNIT, len as int, UNIT as int);
            assert(m as int * UNIT == -(c as int * UNIT)) by (nonlinear_arith)
                requires m == -c;
        }
        -((m * UNIT) / len)
    }
}

} // verus!
