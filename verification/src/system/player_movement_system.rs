//! Input-driven player movement. The system owns a persistent keyboard
//! cursor and two signed accumulators set by press/release events; each
//! tick it integrates the player's speed from the acceleration key, blends
//! the heading toward the facing direction while accelerating forward, and
//! integrates the rotation angle while a rotation key is held.

use vstd::prelude::*;

use crate::component::{Transform, Velocity};
use crate::entity::Entity;
use crate::events::ReaderId;
use crate::math::{lemma_lerp_in_box, mul_unit, spec_clamp, spec_mul_unit, clamp_i64, wrap_angle,
    spec_wrap_angle, Vec2Fx, UNIT};
use crate::resource::{Key, KeyboardEvent};
use crate::world::{lemma_unique_component_slot, World};

verus! {

/// Top speed of the player, micro-units per tick step.
pub const MAX_PLAYER_SPEED: i64 = 10_000_000;

/// Player acceleration, micro-units per second per second; its per-tick,
/// per-millisecond contribution is `PLAYER_ACCEL_PER_MS`.
pub const PLAYER_ACCELERATION: i64 = 2_500_000;

/// `PLAYER_ACCELERATION / 1000`: speed gained per millisecond of
/// accelerating (the division is exact).
pub const PLAYER_ACCEL_PER_MS: i64 = 2500;

/// Player rotation speed, microradians per second.
pub const PLAYER_ROTATION_SPEED: i64 = 5_000_000;

/// `PLAYER_ROTATION_SPEED / 1000`: microradians per millisecond of
/// rotating.
pub const PLAYER_ROT_PER_MS: i64 = 5000;

/// How fast the heading blends toward the facing direction, unit fractions
/// per second: a full second of forward acceleration would align them.
pub const PLAYER_MANEUVER_SPEED: i64 = 1_000_000;

/// One keyboard event's effect on the accumulators `(rotation,
/// acceleration)`: the accelerate key pushes acceleration to one, the
/// brake key to minus two, the rotation keys push rotation to plus or
/// minus one, and releases reset the respective accumulator.
pub open spec fn spec_factor_step(rf: i8, af: i8, e: KeyboardEvent) -> (i8, i8) {
    match e {
        KeyboardEvent::Pressed(Key::W) => (rf, 1),
        KeyboardEvent::Released(Key::W) => (rf, 0),
        KeyboardEvent::Pressed(Key::S) => (rf, -2i8),
        KeyboardEvent::Released(Key::S) => (rf, 0),
        KeyboardEvent::Pressed(Key::D) => (-1i8, af),
        KeyboardEvent::Released(Key::D) => (0, af),
        KeyboardEvent::Pressed(Key::A) => (1, af),
        KeyboardEvent::Released(Key::A) => (0, af),
        _ => (rf, af),
    }
}

/// The accumulators after a sequence of keyboard events, oldest first.
pub open spec fn spec_factors_after(evs: Seq<KeyboardEvent>, rf: i8, af: i8) -> (i8, i8)
    decreases evs.len(),
{
    if evs.len() == 0 {
        (rf, af)
    } else {
        let prev = spec_factors_after(evs.drop_last(), rf, af);
        spec_factor_step(prev.0, prev.1, evs.last())
    }
}

/// Where one tick of movement input takes the player's transform and
/// velocity. With acceleration held, speed changes by
/// `PLAYER_ACCEL_PER_MS * dt * af`, clamped into `[0, MAX_PLAYER_SPEED]`,
/// and — when accelerating forward — the heading blends toward the facing
/// direction by the fraction `PLAYER_MANEUVER_SPEED * dt / 1000`, capped
/// at a full blend. With a rotation key held, the angle advances by
/// `PLAYER_ROT_PER_MS * dt * rf`, wrapped within a turn.
pub open spec fn spec_player_moved(t: Transform, v: Velocity, dt: u64, rf: i8, af: i8) -> (
    Transform,
    Velocity,
) {
    let v1 = if af != 0 {
        let s1 = spec_clamp(
            v.speed + PLAYER_ACCEL_PER_MS * dt * af,
            0,
            MAX_PLAYER_SPEED as int,
        ) as i64;
        let dir = if af > 0 {
            let tfrac = if 1000 * dt > UNIT {
                UNIT as int
            } else {
                1000 * dt
            };
            let f = t.spec_facing();
            Vec2Fx {
                x: (v.direction.x + spec_mul_unit(f.x - v.direction.x, tfrac)) as i64,
                y: (v.direction.y + spec_mul_unit(f.y - v.direction.y, tfrac)) as i64,
            }
        } else {
            v.direction
        };
        Velocity { direction: dir, speed: s1 }
    } else {
        v
    };
    let t1 = if rf != 0 {
        Transform {
            position: t.position,
            rotation: spec_wrap_angle(t.rotation + PLAYER_ROT_PER_MS * dt * rf) as i64,
            scale: t.scale,
        }
    } else {
        t
    };
    (t1, v1)
}

/// The transform of `e` after the first `i` player slots moved.
pub open spec fn spec_moved_transform(w0: World, rf: i8, af: i8, i: int, e: Entity) -> Option<
    Transform,
>
    decreases i,
{
    if i <= 0 {
        w0.transforms.spec_get(e)
    } else {
        let prev = spec_moved_transform(w0, rf, af, i - 1, e);
        match w0.players.spec_entry_at(i - 1) {
            Some((pe, _)) => if pe == e {
                match (w0.transforms.spec_get(e), w0.velocities.spec_get(e)) {
                    (Some(t), Some(v)) => Some(
                        spec_player_moved(t, v, w0.delta_time.0, rf, af).0,
                    ),
                    _ => prev,
                }
            } else {
                prev
            },
            None => prev,
        }
    }
}

/// The velocity of `e` after the first `i` player slots moved.
pub open spec fn spec_moved_velocity(w0: World, rf: i8, af: i8, i: int, e: Entity) -> Option<
    Velocity,
>
    decreases i,
{
    if i <= 0 {
        w0.velocities.spec_get(e)
    } else {
        let prev = spec_moved_velocity(w0, rf, af, i - 1, e);
        match w0.players.spec_entry_at(i - 1) {
            Some((pe, _)) => if pe == e {
                match (w0.transforms.spec_get(e), w0.velocities.spec_get(e)) {
                    (Some(t), Some(v)) => Some(
                        spec_player_moved(t, v, w0.delta_time.0, rf, af).1,
                    ),
                    _ => prev,
                }
            } else {
                prev
            },
            None => prev,
        }
    }
}

/// Player slots at or beyond `i` have not acted yet.
proof fn lemma_moved_untouched(w0: World, rf: i8, af: i8, i: int, e: Entity)
    requires
        0 <= i,
        i <= e.index,
        i <= w0.players.spec_slot_count(),
        w0.players.spec_slot_count() <= usize::MAX,
    ensures
        spec_moved_transform(w0, rf, af, i, e) == w0.transforms.spec_get(e),
        spec_moved_velocity(w0, rf, af, i, e) == w0.velocities.spec_get(e),
    decreases i,
{
    if i > 0 {
        w0.players.lemma_entry_index(i - 1);
        lemma_moved_untouched(w0, rf, af, i - 1, e);
    }
}

/// Drives the player from the four-key control scheme.
pub struct PlayerMovementSystem {
    /// Cursor into the keyboard event log, registered at setup.
    pub reader: ReaderId,
    /// Rotation accumulator: minus one, zero or plus one.
    pub rotation_factor: i8,
    /// Acceleration accumulator: one forward, minus two braking, zero idle.
    pub acceleration_factor: i8,
}

/// What one movement tick does, as a relation between the system state
/// and world before (`s0`, `w0`) and after (`s1`, `w1`);
/// `PlayerMovementSystem::run` ensures exactly this.
pub open spec fn spec_player_movement_step(
    s0: PlayerMovementSystem,
    s1: PlayerMovementSystem,
    w0: World,
    w1: World,
) -> bool {
    &&& w1.inv()
    &&& s1.wf()
    &&& s1.reader == s0.reader
    &&& ({
            let folded = spec_factors_after(
                w0.keyboard_events.spec_pending(s0.reader.spec_id()),
                s0.rotation_factor,
                s0.acceleration_factor,
            );
            s1.rotation_factor == folded.0 && s1.acceleration_factor
                == folded.1
        })
    &&& forall|e: Entity|
            (#[trigger] w1.transforms.spec_get(e)) == spec_moved_transform(
                w0,
                s1.rotation_factor,
                s1.acceleration_factor,
                w0.players.spec_slot_count() as int,
                e,
            )
    &&& forall|e: Entity|
            (#[trigger] w1.velocities.spec_get(e)) == spec_moved_velocity(
                w0,
                s1.rotation_factor,
                s1.acceleration_factor,
                w0.players.spec_slot_count() as int,
                e,
            )
    &&& w1.keyboard_events.spec_events() == w0.keyboard_events.spec_events()
    &&& w1.keyboard_events.spec_reader_count() == w0.keyboard_events.spec_reader_count()
    &&& w1.keyboard_events.spec_cursor(s0.reader.spec_id()) == w1.keyboard_events.spec_events().len()
    &&& forall|r2: nat|
            r2 < w0.keyboard_events.spec_reader_count() && r2 != s0.reader.spec_id()
                ==> #[trigger] w1.keyboard_events.spec_cursor(r2) == w0.keyboard_events.spec_cursor(r2)
    &&& w1.entities == w0.entities
    &&& w1.displays == w0.displays
    &&& w1.players == w0.players
    &&& w1.colliders == w0.colliders
    &&& w1.lifetimes == w0.lifetimes
    &&& w1.spinners == w0.spinners
    &&& w1.delta_time == w0.delta_time
    &&& w1.window_size == w0.window_size
    &&& w1.game_state == w0.game_state
    &&& w1.scene_state == w0.scene_state
    &&& w1.window_events == w0.window_events
    &&& w1.lazy == w0.lazy
}

impl PlayerMovementSystem {
    /// The accumulators hold only values the key scheme produces.
    pub open spec fn wf(self) -> bool {
        &&& -1 <= self.rotation_factor <= 1
        &&& -2 <= self.acceleration_factor <= 1
    }

    /// Set up the system on a world: register its keyboard cursor, so it
    /// observes exactly the key events appended from now on; the
    /// accumulators start at zero.
    pub fn new(w: &mut World) -> (s: PlayerMovementSystem)
        requires
            old(w).inv(),
            old(w).keyboard_events.spec_reader_count() < usize::MAX,
        ensures
            final(w).inv(),
            s.wf(),
            s.rotation_factor == 0,
            s.acceleration_factor == 0,
            s.reader.spec_id() == old(w).keyboard_events.spec_reader_count(),
            final(w).keyboard_events.spec_reader_count() == old(w).keyboard_events.spec_reader_count() + 1,
            final(w).keyboard_events.spec_events() == old(w).keyboard_events.spec_events(),
            final(w).keyboard_events.spec_cursor(s.reader.spec_id()) == final(w).keyboard_events.spec_events().len(),
            forall|r2: nat|
                r2 < old(w).keyboard_events.spec_reader_count() ==> #[trigger] final(w).keyboard_events.spec_cursor(r2) == old(w).keyboard_events.spec_cursor(r2),
            final(w).entities == old(w).entities,
            final(w).transforms == old(w).transforms,
            final(w).velocities == old(w).velocities,
            final(w).displays == old(w).displays,
            final(w).players == old(w).players,
            final(w).colliders == old(w).colliders,
            final(w).lifetimes == old(w).lifetimes,
            final(w).spinners == old(w).spinners,
            final(w).delta_time == old(w).delta_time,
            final(w).window_size == old(w).window_size,
            final(w).game_state == old(w).game_state,
            final(w).scene_state == old(w).scene_state,
            final(w).window_events == old(w).window_events,
            final(w).lazy == old(w).lazy,
    {
        let reader = w.keyboard_events.register_reader();
        PlayerMovementSystem { reader, rotation_factor: 0, acceleration_factor: 0 }
    }

    /// One tick: drain this system's keyboard cursor and fold the events
    /// into the accumulators, then move every entity that has a player, a
    /// transform and a velocity as `spec_player_moved` says — speed
    /// integrated and clamped, heading blended while accelerating forward,
    /// angle integrated while rotating. Releasing every key leaves the
    /// accumulators at zero and a zero acceleration accumulator leaves the
    /// velocity exactly as it was: there is no friction.
    pub fn run(&mut self, w: &mut World)
        requires
            old(w).inv(),
            old(self).wf(),
            old(self).reader.spec_id() < old(w).keyboard_events.spec_reader_count(),
        ensures
            spec_player_movement_step(*old(self), *final(self), *old(w), *final(w)),
    {
        let ghost pending = old(w).keyboard_events.spec_pending(self.reader.spec_id());
        let events = w.keyboard_events.read(self.reader);
        let m = events.len();
        let mut j: usize = 0;
        while j < m
            invariant
                m == events.len(),
                events@ == pending,
                0 <= j <= m,
                -1 <= self.rotation_factor <= 1,
                -2 <= self.acceleration_factor <= 1,
                (self.rotation_factor, self.acceleration_factor) == spec_factors_after(
                    pending.subrange(0, j as int),
                    old(self).rotation_factor,
                    old(self).acceleration_factor,
                ),
                self.reader == old(self).reader,
            decreases m - j,
        {
            let ghost pre = pending.subrange(0, j as int);
            proof {
                assert(pending.subrange(0, j as int + 1).drop_last() =~= pre);
            }
            match events[j] {
                KeyboardEvent::Pressed(Key::W) => {
                    self.acceleration_factor = 1;
                },
                KeyboardEvent::Released(Key::W) => {
                    self.acceleration_factor = 0;
                },
                KeyboardEvent::Pressed(Key::S) => {
                    self.acceleration_factor = -2;
                },
                KeyboardEvent::Released(Key::S) => {
                    self.acceleration_factor = 0;
                },
                KeyboardEvent::Pressed(Key::D) => {
                    self.rotation_factor = -1;
                },
                KeyboardEvent::Released(Key::D) => {
                    self.rotation_factor = 0;
                },
                KeyboardEvent::Pressed(Key::A) => {
                    self.rotation_factor = 1;
                },
                KeyboardEvent::Released(Key::A) => {
                    self.rotation_factor = 0;
                },
                _ => {},
            }
            j = j + 1;
        }
        proof {
            assert(pending.subrange(0, m as int) =~= pending);
        }

        let rf = self.rotation_factor;
        let af = self.acceleration_factor;
        let dt = w.delta_time.0;
        let ghost kb_after = w.keyboard_events;
        let n = w.players.slot_count();
        let mut i: usize = 0;
        while i < n
            invariant
                w.inv(),
                old(w).inv(),
                n == w.players.spec_slot_count(),
                dt == old(w).delta_time.0,
                0 <= i <= n,
                -1 <= rf <= 1,
                -2 <= af <= 1,
                forall|e: Entity|
                    (#[trigger] w.transforms.spec_get(e)) == spec_moved_transform(
                        *old(w),
                        rf,
                        af,
                        i as int,
                        e,
                    ),
                forall|e: Entity|
                    (#[trigger] w.velocities.spec_get(e)) == spec_moved_velocity(
                        *old(w),
                        rf,
                        af,
                        i as int,
                        e,
                    ),
                w.entities == old(w).entities,
                w.displays == old(w).displays,
                w.players == old(w).players,
                w.colliders == old(w).colliders,
                w.lifetimes == old(w).lifetimes,
                w.spinners == old(w).spinners,
                w.delta_time == old(w).delta_time,
                w.window_size == old(w).window_size,
                w.game_state == old(w).game_state,
                w.scene_state == old(w).scene_state,
                w.keyboard_events == kb_after,
                w.window_events == old(w).window_events,
                w.lazy == old(w).lazy,
            decreases n - i,
        {
            match w.players.entry_at(i) {
                Some((pe, _)) => {
                    proof {
                        lemma_moved_untouched(*old(w), rf, af, i as int, pe);
                    }
                    let t_opt = match w.transforms.get(pe) {
                        Some(t_ref) => Some(*t_ref),
                        None => None,
                    };
                    let v_opt = match w.velocities.get(pe) {
                        Some(v_ref) => Some(*v_ref),
                        None => None,
                    };
                    match (t_opt, v_opt) {
                        (Some(t), Some(v)) => {
                            let mut v1 = v;
                            if af != 0 {
                                proof {
                                    crate::math::lemma_abs_mul_le(
                                        PLAYER_ACCEL_PER_MS * (dt as int),
                                        af as int,
                                        2_500_000,
                                        2,
                                    );
                                }
                                let term: i64 = PLAYER_ACCEL_PER_MS * (dt as i64) * (af as i64);
                                v1.speed = clamp_i64(v.speed + term, 0, MAX_PLAYER_SPEED);
                                if af > 0 {
                                    let tfrac: i64 = if 1000 * (dt as i64) > UNIT {
                                        UNIT
                                    } else {
                                        1000 * (dt as i64)
                                    };
                                    let f = t.get_facing_vector();
                                    proof {
                                        lemma_lerp_in_box(
                                            v.direction.x as int,
                                            f.x as int,
                                            tfrac as int,
                                            -UNIT as int,
                                            UNIT as int,
                                        );
                                        lemma_lerp_in_box(
                                            v.direction.y as int,
                                            f.y as int,
                                            tfrac as int,
                                            -UNIT as int,
                                            UNIT as int,
                                        );
                                    }
                                    let bx = mul_unit(f.x - v.direction.x, tfrac);
                                    let by = mul_unit(f.y - v.direction.y, tfrac);
                                    v1.direction = Vec2Fx {
                                        x: v.direction.x + bx,
                                        y: v.direction.y + by,
                                    };
                                }
                            }
                            let mut t1 = t;
                            if rf != 0 {
                                proof {
                                    crate::math::lemma_abs_mul_le(
                                        PLAYER_ROT_PER_MS * (dt as int),
                                        rf as int,
                                        5_000_000,
                                        1,
                                    );
                                }
                                let inc: i64 = PLAYER_ROT_PER_MS * (dt as i64) * (rf as i64);
                                t1.rotation = wrap_angle(t.rotation + inc);
                            }
                            proof {
                                lemma_unique_component_slot(*w, pe);
                            }
                            w.transforms.insert(pe, t1);
                            proof {
                                lemma_unique_component_slot(*w, pe);
                            }
                            w.velocities.insert(pe, v1);
                        },
                        _ => {},
                    }
                },
                None => {},
            }
            i = i + 1;
        }
    }
}

/// The speed a player reaches from standstill after `n` ticks of `dt`
/// milliseconds each with the accelerate key held: the per-tick recurrence
/// of `spec_player_moved` with an acceleration accumulator of one.
pub open spec fn spec_held_accel_speed(n: nat, dt: u64) -> int
    decreases n,
{
    if n == 0 {
        0
    } else {
        spec_clamp(
            spec_held_accel_speed((n - 1) as nat, dt) + PLAYER_ACCEL_PER_MS * dt,
            0,
            MAX_PLAYER_SPEED as int,
        )
    }
}

/// Holding accelerate from standstill for `n` ticks of `dt` milliseconds
/// (a total duration of `T = n * dt` milliseconds) yields exactly
/// `min(MAX_PLAYER_SPEED, PLAYER_ACCELERATION * T / 1000)`: acceleration
/// integrates linearly until the speed cap.
pub proof fn lemma_speed_of_held_accelerate(n: nat, dt: u64)
    ensures
        spec_held_accel_speed(n, dt) == if PLAYER_ACCEL_PER_MS * n * dt
            < MAX_PLAYER_SPEED {
            PLAYER_ACCEL_PER_MS * n * dt
        } else {
            MAX_PLAYER_SPEED as int
        },
    decreases n,
{
    let a: int = PLAYER_ACCEL_PER_MS * dt;
    if n == 0 {
        assert(PLAYER_ACCEL_PER_MS * n * dt == 0) by (nonlinear_arith)
            requires n == 0;
    } else {
        lemma_speed_of_held_accelerate((n - 1) as nat, dt);
        let prev_total: int = PLAYER_ACCEL_PER_MS * (n - 1) * dt;
        let total: int = PLAYER_ACCEL_PER_MS * n * dt;
        assert(prev_total + a == total) by (nonlinear_arith)
            requires
                n >= 1,
                a == PLAYER_ACCEL_PER_MS * dt,
                prev_total == PLAYER_ACCEL_PER_MS * (n - 1) * dt,
                total == PLAYER_ACCEL_PER_MS * n * dt;
        assert(prev_total >= 0) by (nonlinear_arith)
            requires n >= 1, prev_total == PLAYER_ACCEL_PER_MS * (n - 1) * dt;
        if prev_total < MAX_PLAYER_SPEED {
            assert(spec_held_accel_speed((n - 1) as nat, dt) == prev_total);
            assert(spec_held_accel_speed(n, dt) == spec_clamp(
                prev_total + a,
                0,
                MAX_PLAYER_SPEED as int,
            ));
        } else {
            assert(spec_held_accel_speed((n - 1) as nat, dt) == MAX_PLAYER_SPEED);
            assert(total >= prev_total);
            assert(spec_held_accel_speed(n, dt) == MAX_PLAYER_SPEED);
        }
    }
}

/// One accelerating tick adds exactly `PLAYER_ACCEL_PER_MS * dt` to the
/// speed, clamped into `[0, MAX_PLAYER_SPEED]` — the recurrence that
/// `spec_held_accel_speed` iterates.
pub proof fn lemma_tick_speed_step(t: Transform, v: Velocity, dt: u64, rf: i8)
    ensures
        spec_player_moved(t, v, dt, rf, 1).1.speed == spec_clamp(
            v.speed + PLAYER_ACCEL_PER_MS * dt,
            0,
            MAX_PLAYER_SPEED as int,
        ),
{
}

/// With every key released the accumulators are zero and the velocity —
/// heading and speed alike — passes through a tick unchanged: speed is
/// held, there is no friction.
pub proof fn lemma_release_keeps_speed(t: Transform, v: Velocity, dt: u64)
    ensures
        spec_player_moved(t, v, dt, 0, 0).1 == v,
        spec_player_moved(t, v, dt, 0, 0).0 == t,
{
}

} // verus!
