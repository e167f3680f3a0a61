//! Component records: plain value structs attached to at most one entity
//! each. Positions, scales and speeds are fixed-point micro-units; angles
//! are microradians; lifetimes are micro-seconds.

use vstd::prelude::*;

use crate::aabb::AABB;
use crate::math::{Vec2Fx, UNIT, TAU_URAD, TAU_MRAD, spec_sin_mrad, spec_cos_mrad, sin_mrad,
    cos_mrad};

verus! {

/// Magnitude bound for positions: generous enough for any window size in
/// micro-units, small enough that the collision arithmetic cannot overflow.
pub const POS_LIMIT: i64 = 5_000_000_000_000_000;

/// Bound for transform scale factors and collider box sizes (a thousand
/// world units), keeping `size * scale` within `i64`.
pub const SCALE_LIMIT: i64 = 1_000_000_000;

/// Bound for scalar speeds (a thousand world units per second).
pub const SPEED_LIMIT: i64 = 1_000_000_000;

/// Bound for angular speeds, in microradians per second: just under a full
/// turn, so one tick of at most a second advances an angle by less than a
/// turn and a single wrap step suffices.
pub const SPIN_LIMIT: i64 = 6_000_000;

/// Magnitude bound for remaining lifetimes, in micro-seconds.
pub const LIFETIME_LIMIT: i64 = 5_000_000_000_000_000;

/// Full player health, in micro-units (100 health points).
pub const HEALTH_MAX: i64 = 100_000_000;

/// Position, rotation and non-uniform scale of an entity.
#[derive(Clone, Copy, Debug, PartialEq, Eq, Structural)]
pub struct Transform {
    /// Centre position, micro-units.
    pub position: Vec2Fx,
    /// Rotation angle, microradians in `[0, TAU_URAD)`.
    pub rotation: i64,
    /// Non-uniform scale, micro-units (so `UNIT` is a factor of one).
    pub scale: Vec2Fx,
}

impl Transform {
    /// In-range position and scale and a normalized angle.
    pub open spec fn wf(self) -> bool {
        &&& -POS_LIMIT <= self.position.x <= POS_LIMIT
        &&& -POS_LIMIT <= self.position.y <= POS_LIMIT
        &&& 0 <= self.rotation < TAU_URAD
        &&& 0 <= self.scale.x <= SCALE_LIMIT
        &&& 0 <= self.scale.y <= SCALE_LIMIT
    }

    /// The facing direction `get_facing_vector` computes: the unit vector
    /// "up" rotated by the transform's angle, via the milliradian sine
    /// approximation, in micro-units.
    pub open spec fn spec_facing(self) -> Vec2Fx {
        Vec2Fx {
            x: (-spec_sin_mrad(self.rotation / 1000)) as i64,
            y: spec_cos_mrad(self.rotation / 1000) as i64,
        }
    }

    /// The unit vector the entity is facing: "up" rotated by the
    /// transform's angle. Components are micro-units within `[-UNIT, UNIT]`.
    pub fn get_facing_vector(&self) -> (r: Vec2Fx)
        requires
            0 <= self.rotation < TAU_URAD,
        ensures
            r == self.spec_facing(),
            -UNIT <= r.x <= UNIT,
            -UNIT <= r.y <= UNIT,
    {
        let mrad: i64 = self.rotation / 1000;
        assert(0 <= mrad <= TAU_MRAD);
        let s = sin_mrad(mrad);
        let c = cos_mrad(mrad);
        Vec2Fx { x: -s, y: c }
    }
}

impl Default for Transform {
    /// Origin position, no rotation, a uniform scale of fifty world units.
    fn default() -> (r: Transform)
        ensures
            r.position.x == 0 && r.position.y == 0,
            r.rotation == 0,
            r.scale.x == 50 * UNIT && r.scale.y == 50 * UNIT,
            r.wf(),
    {
        Transform {
            position: Vec2Fx { x: 0, y: 0 },
            rotation: 0,
            scale: Vec2Fx { x: 50 * UNIT, y: 50 * UNIT },
        }
    }
}

/// Heading and scalar speed, kept separate so speed can be clamped without
/// touching the heading.
#[derive(Clone, Copy, Debug, PartialEq, Eq, Structural)]
pub struct Velocity {
    /// Unit-length heading, micro-units.
    pub direction: Vec2Fx,
    /// Scalar speed, micro-units per tick step.
    pub speed: i64,
}

impl Velocity {
    /// Direction components within the unit box, speed non-negative and
    /// bounded.
    pub open spec fn wf(self) -> bool {
        &&& -UNIT <= self.direction.x <= UNIT
        &&& -UNIT <= self.direction.y <= UNIT
        &&& 0 <= self.speed <= SPEED_LIMIT
    }
}

impl Default for Velocity {
    /// Heading straight up with zero speed.
    fn default() -> (r: Velocity)
        ensures
            r.direction.x == 0 && r.direction.y == UNIT,
            r.speed == 0,
            r.wf(),
    {
        Velocity { direction: Vec2Fx { x: 0, y: UNIT }, speed: 0 }
    }
}

/// Sprite index into the external atlas; pure data.
#[derive(Clone, Copy, Debug, PartialEq, Eq, Structural)]
pub struct Display {
    pub sprite_idx: u32,
}

/// Player state: health in micro-units within `[0, HEALTH_MAX]`.
#[derive(Clone, Copy, Debug, PartialEq, Eq, Structural)]
pub struct Player {
    pub health: i64,
}

impl Player {
    /// Health stays within `[0, HEALTH_MAX]`.
    pub open spec fn wf(self) -> bool {
        0 <= self.health <= HEALTH_MAX
    }
}

impl Default for Player {
    /// Full health.
    fn default() -> (r: Player)
        ensures
            r.health == HEALTH_MAX,
            r.wf(),
    {
        Player { health: HEALTH_MAX }
    }
}

/// What a collider is attached to; collision resolution dispatches on it.
#[derive(Clone, Copy, Debug, PartialEq, Eq, Structural)]
pub enum ColliderTag {
    Player,
    Asteroid,
    Health,
}

/// A tag plus an untransformed bounding box; the world-space box is the box
/// translated by the entity's position and scaled by its scale.
#[derive(Clone, Copy, Debug, PartialEq, Eq, Structural)]
pub struct Collider {
    pub tag: ColliderTag,
    pub bounding_box: AABB,
}

impl Collider {
    /// Box coordinates in range for the collision arithmetic.
    pub open spec fn wf(self) -> bool {
        &&& -POS_LIMIT <= self.bounding_box.pos.x <= POS_LIMIT
        &&& -POS_LIMIT <= self.bounding_box.pos.y <= POS_LIMIT
        &&& 0 <= self.bounding_box.size.x <= SCALE_LIMIT
        &&& 0 <= self.bounding_box.size.y <= SCALE_LIMIT
    }

    /// A collider with the given tag and the unit bounding box.
    pub fn new(tag: ColliderTag) -> (r: Collider)
        ensures
            r.tag == tag,
            r.bounding_box == AABB::unit_spec(),
            r.wf(),
    {
        Collider { tag, bounding_box: AABB::unit() }
    }
}

/// Remaining time to live, micro-seconds; the entity is deleted at the end
/// of the tick in which this reaches zero or below.
#[derive(Clone, Copy, Debug, PartialEq, Eq, Structural)]
pub struct Lifetime {
    pub remaining: i64,
}

impl Lifetime {
    /// Magnitude in range, so a tick's decrement cannot overflow.
    pub open spec fn wf(self) -> bool {
        -LIFETIME_LIMIT <= self.remaining <= LIFETIME_LIMIT
    }
}

/// Continuous rotation: angular speed in microradians per second.
#[derive(Clone, Copy, Debug, PartialEq, Eq, Structural)]
pub struct Spinner {
    pub speed: i64,
}

impl Spinner {
    /// Angular speed below one turn per second, so a tick's advance wraps
    /// in a single step.
    pub open spec fn wf(self) -> bool {
        0 <= self.speed <= SPIN_LIMIT
    }
}

} // verus!
