//! Keeps the player inside the window: a player that strays past half the
//! window width has its horizontal heading mirrored (or, past half the
//! height, its vertical heading), and its position is clamped back into
//! the window box.

use vstd::prelude::*;

use crate::component::{Transform, Velocity};
use crate::entity::Entity;
use crate::math::{spec_clamp, clamp_i64, Vec2Fx, UNIT};
use crate::world::{lemma_unique_component_slot, World};

verus! {

/// Where one bounds pass takes a player's transform and velocity for a
/// window of `ww` by `hh` pixels: past half the width the horizontal
/// heading flips, else past half the height the vertical heading flips;
/// the position is clamped into the half-window box either way.
pub open spec fn spec_bounced(t: Transform, v: Velocity, ww: u32, hh: u32) -> (
    Transform,
    Velocity,
) {
    let half_w = (ww / 2) as int * UNIT;
    let half_h = (hh / 2) as int * UNIT;
    let dir = if t.position.x > half_w || t.position.x < -half_w {
        Vec2Fx { x: (-v.direction.x) as i64, y: v.direction.y }
    } else if t.position.y > half_h || t.position.y < -half_h {
        Vec2Fx { x: v.direction.x, y: (-v.direction.y) as i64 }
    } else {
        v.direction
    };
    (
        Transform {
            position: Vec2Fx {
                x: spec_clamp(t.position.x as int, -half_w, half_w) as i64,
                y: spec_clamp(t.position.y as int, -half_h, half_h) as i64,
            },
            rotation: t.rotation,
            scale: t.scale,
        },
        Velocity { direction: dir, speed: v.speed },
    )
}

/// The transform of `e` after the first `i` player slots were bounced.
pub open spec fn spec_bounced_transform(w0: World, i: int, e: Entity) -> Option<Transform>
    decreases i,
{
    if i <= 0 {
        w0.transforms.spec_get(e)
    } else {
        let prev = spec_bounced_transform(w0, i - 1, e);
        match w0.players.spec_entry_at(i - 1) {
            Some((pe, _)) => if pe == e {
                match (w0.transforms.spec_get(e), w0.velocities.spec_get(e)) {
                    (Some(t), Some(v)) => Some(
                        spec_bounced(t, v, w0.window_size.0, w0.window_size.1).0,
                    ),
                    _ => prev,
                }
            } else {
                prev
            },
            None => prev,
        }
    }
}

/// The velocity of `e` after the first `i` player slots were bounced.
pub open spec fn spec_bounced_velocity(w0: World, i: int, e: Entity) -> Option<Velocity>
    decreases i,
{
    if i <= 0 {
        w0.velocities.spec_get(e)
    } else {
        let prev = spec_bounced_velocity(w0, i - 1, e);
        match w0.players.spec_entry_at(i - 1) {
            Some((pe, _)) => if pe == e {
                match (w0.transforms.spec_get(e), w0.velocities.spec_get(e)) {
                    (Some(t), Some(v)) => Some(
                        spec_bounced(t, v, w0.window_size.0, w0.window_size.1).1,
                    ),
                    _ => prev,
                }
            } else {
                prev
            },
            None => prev,
        }
    }
}

/// Player slots at or beyond `i` have not been bounced yet.
proof fn lemma_bounced_untouched(w0: World, i: int, e: Entity)
    requires
        0 <= i,
        i <= e.index,
        i <= w0.players.spec_slot_count(),
        w0.players.spec_slot_count() <= usize::MAX,
    ensures
        spec_bounced_transform(w0, i, e) == w0.transforms.spec_get(e),
        spec_bounced_velocity(w0, i, e) == w0.velocities.spec_get(e),
    decreases i,
{
    if i > 0 {
        w0.players.lemma_entry_index(i - 1);
        lemma_bounced_untouched(w0, i - 1, e);
    }
}

/// Mirrors the player's heading at the window edge and clamps it inside.
#[derive(Default)]
pub struct PlayerBoundsEnforcerSystem {}

/// What one bounds pass does, as a relation between the world before
/// (`w0`) and after (`w1`); `PlayerBoundsEnforcerSystem::run` ensures
/// exactly this.
pub open spec fn spec_bounds_enforcer_step(w0: World, w1: World) -> bool {
    &&& w1.inv()
    &&& forall|e: Entity|
            (#[trigger] w1.transforms.spec_get(e)) == spec_bounced_transform(
                w0,
                w0.players.spec_slot_count() as int,
                e,
            )
    &&& forall|e: Entity|
            (#[trigger] w1.velocities.spec_get(e)) == spec_bounced_velocity(
                w0,
                w0.players.spec_slot_count() as int,
                e,
            )
    &&& w1.entities == w0.entities
    &&& w1.displays == w0.displays
    &&& w1.players == w0.players
    &&& w1.colliders == w0.colliders
    &&& w1.lifetimes == w0.lifetimes
    &&& w1.spinners == w0.spinners
    &&& w1.delta_time == w0.delta_time
    &&& w1.window_size == w0.window_size
    &&& w1.game_state == w0.game_state
    &&& w1.scene_state == w0.scene_state
    &&& w1.keyboard_events == w0.keyboard_events
    &&& w1.window_events == w0.window_events
    &&& w1.lazy == w0.lazy
}

impl PlayerBoundsEnforcerSystem {
    /// Bounce every entity with a player, a transform and a velocity off
    /// the window edges, as `spec_bounced` states. Nothing else in the
    /// world changes.
    pub fn run(&mut self, w: &mut World)
        requires
            old(w).inv(),
        ensures
            spec_bounds_enforcer_step(*old(w), *final(w)),
    {
        let ww = w.window_size.0;
        let hh = w.window_size.1;
        let half_w: i64 = ((ww / 2) as i64) * UNIT;
        let half_h: i64 = ((hh / 2) as i64) * UNIT;
        let n = w.players.slot_count();
        let mut i: usize = 0;
        while i < n
            invariant
                w.inv(),
                old(w).inv(),
                n == w.players.spec_slot_count(),
                ww == old(w).window_size.0,
                hh == old(w).window_size.1,
                half_w == (ww / 2) as int * UNIT,
                half_h == (hh / 2) as int * UNIT,
                0 <= half_w <= 3_000_000_000_000_000,
                0 <= half_h <= 3_000_000_000_000_000,
                0 <= i <= n,
                forall|e: Entity|
                    (#[trigger] w.transforms.spec_get(e)) == spec_bounced_transform(
                        *old(w),
                        i as int,
                        e,
                    ),
                forall|e: Entity|
                    (#[trigger] w.velocities.spec_get(e)) == spec_bounced_velocity(
                        *old(w),
                        i as int,
                        e,
                    ),
                w.entities == old(w).entities,
                w.displays == old(w).displays,
                w.players == old(w).players,
                w.colliders == old(w).colliders,
                w.lifetimes == old(w).lifetimes,
                w.spinners == old(w).spinners,
                w.delta_time == old(w).delta_time,
                w.window_size == old(w).window_size,
                w.game_state == old(w).game_state,
                w.scene_state == old(w).scene_state,
                w.keyboard_events == old(w).keyboard_events,
                w.window_events == old(w).window_events,
                w.lazy == old(w).lazy,
            decreases n - i,
        {
            match w.players.entry_at(i) {
                Some((pe, _)) => {
                    proof {
                        lemma_bounced_untouched(*old(w), i as int, pe);
                    }
                    let t_opt = match w.transforms.get(pe) {
                        Some(t_ref) => Some(*t_ref),
                        None => None,
                    };
                    let v_opt = match w.velocities.get(pe) {
                        Some(v_ref) => Some(*v_ref),
                        None => None,
                    };
                    match (t_opt, v_opt) {
                        (Some(t), Some(v)) => {
                            let mut v1 = v;
                            if t.position.x > half_w || t.position.x < -half_w {
                                v1.direction = Vec2Fx { x: -v.direction.x, y: v.direction.y };
                            } else if t.position.y > half_h || t.position.y < -half_h {
                                v1.direction = Vec2Fx { x: v.direction.x, y: -v.direction.y };
                            }
                            let t1 = Transform {
                                position: Vec2Fx {
                                    x: clamp_i64(t.position.x, -half_w, half_w),
                                    y: clamp_i64(t.position.y, -half_h, half_h),
                                },
                                rotation: t.rotation,
                                scale: t.scale,
                            };
                            proof {
                                lemma_unique_component_slot(*w, pe);
                            }
                            w.transforms.insert(pe, t1);
                            proof {
                                lemma_unique_component_slot(*w, pe);
                            }
                            w.velocities.insert(pe, v1);
                        },
                        _ => {},
                    }
                },
                None => {},
            }
            i = i + 1;
        }
    }
}

} // verus!
