//! Continuous rotation: each tick, every entity with a spinner advances
//! its transform's angle by the spinner's angular speed, wrapping within a
//! full turn.

use vstd::prelude::*;

use crate::component::{Transform, SPIN_LIMIT};
use crate::entity::Entity;
use crate::math::{lemma_abs_mul_le, lemma_div_bound, lemma_div_nonneg, spec_wrap_angle, wrap_angle,
    TAU_URAD};
use crate::world::{lemma_unique_component_slot, World};

verus! {

/// A transform after one tick of spinning at `speed` microradians per
/// second: the angle advances by `speed * dt / 1000` and wraps into a full
/// turn; position and scale are untouched.
pub open spec fn spec_spun(t: Transform, speed: i64, dt: u64) -> Transform {
    Transform {
        position: t.position,
        rotation: spec_wrap_angle(t.rotation + speed * dt / 1000) as i64,
        scale: t.scale,
    }
}

/// The transform of `e` after the first `i` spinner slots of `w0` have
/// acted.
pub open spec fn spec_transforms_spun(w0: World, i: int, e: Entity) -> Option<Transform>
    decreases i,
{
    if i <= 0 {
        w0.transforms.spec_get(e)
    } else {
        let prev = spec_transforms_spun(w0, i - 1, e);
        match w0.spinners.spec_entry_at(i - 1) {
            Some((se, s)) => if se == e {
                match w0.transforms.spec_get(e) {
                    Some(t) => Some(spec_spun(t, s.speed, w0.delta_time.0)),
                    None => prev,
                }
            } else {
                prev
            },
            None => prev,
        }
    }
}

/// Spinner slots at or beyond `i` have not acted yet.
proof fn lemma_spun_untouched(w0: World, i: int, e: Entity)
    requires
        0 <= i,
        i <= e.index,
        i <= w0.spinners.spec_slot_count(),
        w0.spinners.spec_slot_count() <= usize::MAX,
    ensures
        spec_transforms_spun(w0, i, e) == w0.transforms.spec_get(e),
    decreases i,
{
    if i > 0 {
        w0.spinners.lemma_entry_index(i - 1);
        lemma_spun_untouched(w0, i - 1, e);
    }
}

/// Advances the rotation of every spinner-bearing transform, once per
/// tick.
#[derive(Default)]
pub struct EntitySpinnerSystem {}

/// What one spin pass does, as a relation between the world before
/// (`w0`) and after (`w1`); `EntitySpinnerSystem::run` ensures exactly
/// this.
pub open spec fn spec_entity_spinner_step(w0: World, w1: World) -> bool {
    &&& w1.inv()
    &&& forall|e: Entity|
            (#[trigger] w1.transforms.spec_get(e)) == spec_transforms_spun(
                w0,
                w0.spinners.spec_slot_count() as int,
                e,
            )
    &&& w1.entities == w0.entities
    &&& w1.velocities == w0.velocities
    &&& w1.displays == w0.displays
    &&& w1.players == w0.players
    &&& w1.colliders == w0.colliders
    &&& w1.lifetimes == w0.lifetimes
    &&& w1.spinners == w0.spinners
    &&& w1.delta_time == w0.delta_time
    &&& w1.window_size == w0.window_size
    &&& w1.game_state == w0.game_state
    &&& w1.scene_state == w0.scene_state
    &&& w1.keyboard_events == w0.keyboard_events
    &&& w1.window_events == w0.window_events
    &&& w1.lazy == w0.lazy
}

impl EntitySpinnerSystem {
    /// Advance the angle of every entity that has both a spinner and a
    /// transform by its angular speed over the tick, wrapping within a
    /// full turn. Nothing else in the world changes.
    pub fn run(&mut self, w: &mut World)
        requires
            old(w).inv(),
        ensures
            spec_entity_spinner_step(*old(w), *final(w)),
    {
        let n = w.spinners.slot_count();
        let dt = w.delta_time.0;
        let mut i: usize = 0;
        while i < n
            invariant
                w.inv(),
                old(w).inv(),
                n == w.spinners.spec_slot_count(),
                dt == old(w).delta_time.0,
                0 <= i <= n,
                forall|e: Entity|
                    (#[trigger] w.transforms.spec_get(e)) == spec_transforms_spun(
                        *old(w),
                        i as int,
                        e,
                    ),
                w.entities == old(w).entities,
                w.velocities == old(w).velocities,
                w.displays == old(w).displays,
                w.players == old(w).players,
                w.colliders == old(w).colliders,
                w.lifetimes == old(w).lifetimes,
                w.spinners == old(w).spinners,
                w.delta_time == old(w).delta_time,
                w.window_size == old(w).window_size,
                w.game_state == old(w).game_state,
                w.scene_state == old(w).scene_state,
                w.keyboard_events == old(w).keyboard_events,
                w.window_events == old(w).window_events,
                w.lazy == old(w).lazy,
            decreases n - i,
        {
            match w.spinners.entry_at(i) {
                Some((se, s_ref)) => {
                    let speed = s_ref.speed;
                    let s = *s_ref;
                    proof {
                        lemma_spun_untouched(*old(w), i as int, se);
                        assert(w.spinners.spec_get(se) == Some(s));
                        assert(s.wf());
                        assert(w.delta_time.wf());
                    }
                    match w.transforms.get(se) {
                        Some(t_ref) => {
                            let t = *t_ref;
                            proof {
                                lemma_abs_mul_le(speed as int, dt as int, SPIN_LIMIT as int, 1000);
                                lemma_div_nonneg(speed as int * dt as int, 1000);
                                lemma_div_bound(speed as int * dt as int, 1000, SPIN_LIMIT as int);
                            }
                            let inc: i64 = speed * (dt as i64) / 1000;
                            assert(0 <= inc < TAU_URAD);
                            let spun = Transform {
                                position: t.position,
                                rotation: wrap_angle(t.rotation + inc),
                                scale: t.scale,
                            };
                            proof {
                                lemma_unique_component_slot(*w, se);
                            }
                            w.transforms.insert(se, spun);
                        },
                        None => {},
                    }
                },
                None => {},
            }
            i = i + 1;
        }
    }
}

} // verus!
