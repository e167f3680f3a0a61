//! The per-tick systems. Each system is a struct holding its persistent
//! state (clocks, event-log cursors, input accumulators) with a `run`
//! method over the world; the dispatcher runs them in dependency order
//! once per tick. This module holds the two leaf systems; the rest live in
//! the submodules.

use vstd::prelude::*;

pub mod asteroid_spawner_system;
pub mod entity_lifetime_system;
pub mod game_manager_system;
pub mod particle_spawner_system;
pub mod player_bounds_enforcer_system;
pub mod repair_pack_manager_system;
pub mod player_collision_system;
pub mod player_movement_system;
pub mod render_system;
pub mod entity_spinner_system;

use crate::component::{Transform, Velocity, POS_LIMIT};
use crate::entity::Entity;
use crate::math::{lemma_abs_mul_le, mul_unit, spec_clamp, spec_mul_unit, clamp_i64, Vec2Fx, UNIT};
use crate::resource::{DeltaTime, GameState, DT_LIMIT_MS};
use crate::world::{lemma_unique_component_slot, World};

verus! {

/// Where a transform ends up after one tick of its velocity: the position
/// advances by `direction * speed` in fixed point, saturating at the world
/// coordinate limit; rotation and scale are untouched.
pub open spec fn spec_moved(t: Transform, v: Velocity) -> Transform {
    Transform {
        position: Vec2Fx {
            x: spec_clamp(
                t.position.x + spec_mul_unit(v.direction.x as int, v.speed as int),
                -POS_LIMIT as int,
                POS_LIMIT as int,
            ) as i64,
            y: spec_clamp(
                t.position.y + spec_mul_unit(v.direction.y as int, v.speed as int),
                -POS_LIMIT as int,
                POS_LIMIT as int,
            ) as i64,
        },
        rotation: t.rotation,
        scale: t.scale,
    }
}

/// The transform of `e` after the first `i` velocity slots of `w0` have
/// been applied: the slot owning `e` (if any) moves `e`'s transform once.
pub open spec fn spec_transforms_moved(w0: World, i: int, e: Entity) -> Option<Transform>
    decreases i,
{
    if i <= 0 {
        w0.transforms.spec_get(e)
    } else {
        let prev = spec_transforms_moved(w0, i - 1, e);
        match w0.velocities.spec_entry_at(i - 1) {
            Some((ve, vel)) => if ve == e {
                match w0.transforms.spec_get(e) {
                    Some(t) => Some(spec_moved(t, vel)),
                    None => prev,
                }
            } else {
                prev
            },
            None => prev,
        }
    }
}

/// Velocity slots at or beyond `i` have not yet acted on `e`: entities with
/// slot index at least `i` keep their initial transform through the first
/// `i` steps.
proof fn lemma_moved_untouched(w0: World, i: int, e: Entity)
    requires
        0 <= i,
        i <= e.index,
        i <= w0.velocities.spec_slot_count(),
        w0.velocities.spec_slot_count() <= usize::MAX,
    ensures
        spec_transforms_moved(w0, i, e) == w0.transforms.spec_get(e),
    decreases i,
{
    if i > 0 {
        w0.velocities.lemma_entry_index(i - 1);
        lemma_moved_untouched(w0, i - 1, e);
    }
}

/// Applies each entity's velocity to its transform, once per tick.
#[derive(Default)]
pub struct VelocityApplicatorSystem {}

/// What one velocity-integration pass does, as a relation between the
/// world before (`w0`) and after (`w1`); `VelocityApplicatorSystem::run`
/// ensures exactly this.
pub open spec fn spec_velocity_applicator_step(w0: World, w1: World) -> bool {
    &&& w1.inv()
    &&& forall|e: Entity|
            (#[trigger] w1.transforms.spec_get(e)) == spec_transforms_moved(
                w0,
                w0.velocities.spec_slot_count() as int,
                e,
            )
    &&& w1.entities == w0.entities
    &&& w1.velocities == w0.velocities
    &&& w1.displays == w0.displays
    &&& w1.players == w0.players
    &&& w1.colliders == w0.colliders
    &&& w1.lifetimes == w0.lifetimes
    &&& w1.spinners == w0.spinners
    &&& w1.delta_time == w0.delta_time
    &&& w1.window_size == w0.window_size
    &&& w1.game_state == w0.game_state
    &&& w1.scene_state == w0.scene_state
    &&& w1.keyboard_events == w0.keyboard_events
    &&& w1.window_events == w0.window_events
    &&& w1.lazy == w0.lazy
}

impl VelocityApplicatorSystem {
    /// Advance every entity that has both a velocity and a transform by
    /// `direction * speed`, saturating at the world coordinate limit.
    /// Nothing else in the world changes.
    pub fn run(&mut self, w: &mut World)
        requires
            old(w).inv(),
        ensures
            spec_velocity_applicator_step(*old(w), *final(w)),
    {
        let n = w.velocities.slot_count();
        let mut i: usize = 0;
        while i < n
            invariant
                w.inv(),
                old(w).inv(),
                n == w.velocities.spec_slot_count(),
                0 <= i <= n,
                forall|e: Entity|
                    (#[trigger] w.transforms.spec_get(e)) == spec_transforms_moved(
                        *old(w),
                        i as int,
                        e,
                    ),
                w.entities == old(w).entities,
                w.velocities == old(w).velocities,
                w.displays == old(w).displays,
                w.players == old(w).players,
                w.colliders == old(w).colliders,
                w.lifetimes == old(w).lifetimes,
                w.spinners == old(w).spinners,
                w.delta_time == old(w).delta_time,
                w.window_size == old(w).window_size,
                w.game_state == old(w).game_state,
                w.scene_state == old(w).scene_state,
                w.keyboard_events == old(w).keyboard_events,
                w.window_events == old(w).window_events,
                w.lazy == old(w).lazy,
            decreases n - i,
        {
            match w.velocities.entry_at(i) {
                Some((ve, vel_ref)) => {
                    let vel = *vel_ref;
                    proof {
                        lemma_moved_untouched(*old(w), i as int, ve);
                        assert(old(w).velocities.spec_get(ve) == Some(vel));
                    }
                    match w.transforms.get(ve) {
                        Some(t_ref) => {
                            let t = *t_ref;
                            proof {
                                lemma_abs_mul_le(
                                    vel.direction.x as int,
                                    vel.speed as int,
                                    UNIT as int,
                                    crate::component::SPEED_LIMIT as int,
                                );
                                lemma_abs_mul_le(
                                    vel.direction.y as int,
                                    vel.speed as int,
                                    UNIT as int,
                                    crate::component::SPEED_LIMIT as int,
                                );
                            }
                            let dx = mul_unit(vel.direction.x, vel.speed);
                            let dy = mul_unit(vel.direction.y, vel.speed);
                            let moved = Transform {
                                position: Vec2Fx {
                                    x: clamp_i64(t.position.x + dx, -POS_LIMIT, POS_LIMIT),
                                    y: clamp_i64(t.position.y + dy, -POS_LIMIT, POS_LIMIT),
                                },
                                rotation: t.rotation,
                                scale: t.scale,
                            };
                            proof {
                                lemma_unique_component_slot(*w, ve);
                            }
                            w.transforms.insert(ve, moved);
                        },
                        None => {},
                    }
                },
                None => {},
            }
            i = i + 1;
        }
    }
}

/// Steps the renderer-facing background frame: the init screen shows frame
/// zero, the end screen frame one, and during play an internal clock
/// cycles frames two to four.
pub struct BackgroundAnimatorSystem {
    /// Clock reset value, milliseconds.
    pub anim_speed: i64,
    /// Time left until the next frame step, milliseconds.
    pub anim_clock: i64,
}

impl BackgroundAnimatorSystem {
    /// The clock stays within one tick below zero and never above its
    /// reset value.
    pub open spec fn wf(self) -> bool {
        &&& 0 <= self.anim_speed <= 100_000
        &&& -(DT_LIMIT_MS as i64) <= self.anim_clock <= self.anim_speed
    }

    /// The frame shown after a step from frame `idx`: frames two to four
    /// cycle, anything else restarts the cycle at two.
    pub open spec fn spec_next_frame(idx: u32) -> u32 {
        if 2 <= idx && idx < 4 {
            (idx + 1) as u32
        } else {
            2
        }
    }
}

impl Default for BackgroundAnimatorSystem {
    /// A tenth of a second per frame, clock due immediately.
    fn default() -> (r: BackgroundAnimatorSystem)
        ensures
            r.anim_speed == 100,
            r.anim_clock == 0,
            r.wf(),
    {
        BackgroundAnimatorSystem { anim_speed: 100, anim_clock: 0 }
    }
}

/// What one background-animation tick does, as a relation between the
/// system state and world before (`s0`, `w0`) and after (`s1`, `w1`);
/// `BackgroundAnimatorSystem::run` ensures exactly this.
pub open spec fn spec_background_animator_step(
    s0: BackgroundAnimatorSystem,
    s1: BackgroundAnimatorSystem,
    w0: World,
    w1: World,
) -> bool {
    &&& w1.inv()
    &&& s1.wf()
    &&& s1.anim_speed == s0.anim_speed
    &&& match w0.game_state {
            GameState::GameStateInit {} => {
                &&& w1.scene_state.background_idx == 0
                &&& s1.anim_clock == s0.anim_clock
            },
            GameState::GameStatePlay { .. } => {
                if s0.anim_clock - w0.delta_time.0 < 0 {
                    &&& w1.scene_state.background_idx
                        == BackgroundAnimatorSystem::spec_next_frame(
                        w0.scene_state.background_idx,
                    )
                    &&& s1.anim_clock == s0.anim_speed
                } else {
                    &&& w1.scene_state.background_idx
                        == w0.scene_state.background_idx
                    &&& s1.anim_clock == s0.anim_clock - w0.delta_time.0
                }
            },
            GameState::GameStateEnd {} => {
                &&& w1.scene_state.background_idx == 1
                &&& s1.anim_clock == s0.anim_clock
            },
        }
    &&& w1.scene_state.player_health == w0.scene_state.player_health
    &&& w1.entities == w0.entities
    &&& w1.transforms == w0.transforms
    &&& w1.velocities == w0.velocities
    &&& w1.displays == w0.displays
    &&& w1.players == w0.players
    &&& w1.colliders == w0.colliders
    &&& w1.lifetimes == w0.lifetimes
    &&& w1.spinners == w0.spinners
    &&& w1.delta_time == w0.delta_time
    &&& w1.window_size == w0.window_size
    &&& w1.game_state == w0.game_state
    &&& w1.keyboard_events == w0.keyboard_events
    &&& w1.window_events == w0.window_events
    &&& w1.lazy == w0.lazy
}

impl BackgroundAnimatorSystem {
    /// On the init screen show frame zero and on the end screen frame one;
    /// during play count the clock down by the tick and, when it expires,
    /// step the frame and reset the clock. Only the background index and
    /// the internal clock change.
    pub fn run(&mut self, w: &mut World)
        requires
            old(w).inv(),
            old(self).wf(),
        ensures
            spec_background_animator_step(*old(self), *final(self), *old(w), *final(w)),
    {
        match w.game_state {
            GameState::GameStateInit {} => {
                w.scene_state.background_idx = 0;
            },
            GameState::GameStatePlay { .. } => {
                let DeltaTime(dt) = w.delta_time;
                self.anim_clock = self.anim_clock - dt as i64;
                if self.anim_clock < 0 {
                    let idx = w.scene_state.background_idx;
                    w.scene_state.background_idx = if 2 <= idx && idx < 4 {
                        idx + 1
                    } else {
                        2
                    };
                    self.anim_clock = self.anim_speed;
                }
            },
            GameState::GameStateEnd {} => {
                w.scene_state.background_idx = 1;
            },
        }
    }
}

} // verus!
