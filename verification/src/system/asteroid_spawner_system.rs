//! Asteroid spawning. During play an internal clock counts down; when it
//! expires one asteroid is created through the deferred buffer with
//! randomized position across the window's top edge, randomized descent
//! velocity, a size and lifetime coupled to its speed, a random sprite
//! and a random spin.

use vstd::prelude::*;

use crate::command::Command;
use crate::component::{Collider, ColliderTag, Display, Lifetime, Spinner, Transform, Velocity};
use crate::entity::Entity;
use crate::math::{spec_normalized, vec2_normalized, Vec2Fx, UNIT};
use crate::resource::{GameState, DT_LIMIT_MS};
use crate::rng::rand_i64;
use crate::world::World;

verus! {

/// Milliseconds between asteroid spawns.
pub const ASTEROID_SPAWN_TIMEOUT_MS: i64 = 1000;

/// The six mutations that materialize one asteroid `p`, given the random
/// draws: top-edge position `(px, h * UNIT)`, a descent heading tilted by
/// `dx`, speed `speed`, a square size coupled to the speed (faster rocks
/// are bigger), sprite `sprite`, spin `spin`, and a lifetime of ten
/// seconds per unit of speed.
pub open spec fn spec_asteroid_cmds(
    p: Entity,
    hh: u32,
    px: i64,
    dx: i64,
    speed: i64,
    sprite: u32,
    spin: i64,
) -> Seq<Command> {
    seq![
        Command::InsertTransform(
            p,
            Transform {
                position: Vec2Fx { x: px, y: (hh * UNIT) as i64 },
                rotation: 0,
                scale: Vec2Fx {
                    x: (100 * UNIT - (5 * UNIT - speed) * 10) as i64,
                    y: (100 * UNIT - (5 * UNIT - speed) * 10) as i64,
                },
            },
        ),
        Command::InsertVelocity(
            p,
            Velocity { direction: spec_normalized(dx as int, -UNIT as int), speed },
        ),
        Command::InsertDisplay(p, Display { sprite_idx: sprite }),
        Command::InsertSpinner(p, Spinner { speed: spin }),
        Command::InsertCollider(
            p,
            Collider { tag: ColliderTag::Asteroid, bounding_box: crate::aabb::AABB::unit_spec() },
        ),
        Command::InsertLifetime(p, Lifetime { remaining: (10 * speed) as i64 }),
    ]
}

/// Whether a spawn happened and its draws were in range: a fresh entity
/// `p` whose six mutations extend the buffer, with the position across
/// the window width, the heading tilt within a tenth of a unit, the speed
/// between one and five units, a sprite among the asteroid frames and a
/// spin below five turns-worth per second.
pub open spec fn spec_asteroid_spawned(w0: World, w1: World) -> bool {
    exists|p: Entity, px: i64, dx: i64, speed: i64, sprite: u32, spin: i64|
        {
            &&& !w0.entities.spec_is_live(p)
            &&& w1.entities.spec_is_live(p)
            &&& (forall|e: Entity|
                e != p ==> w1.entities.spec_is_live(e) == w0.entities.spec_is_live(e))
            &&& -((w0.window_size.0 * UNIT) as int) / 2 <= px < ((w0.window_size.0 * UNIT) as int)
                / 2
            &&& -100_000 <= dx < 100_000
            &&& UNIT <= speed < 5 * UNIT
            &&& 2 <= sprite <= 4
            &&& 100_000 <= spin < 5 * UNIT
            &&& w1.lazy.spec_commands() == w0.lazy.spec_commands() + #[trigger] spec_asteroid_cmds(
                p,
                w0.window_size.1,
                px,
                dx,
                speed,
                sprite,
                spin,
            )
        }
}

/// Spawns one asteroid on a countdown clock while a round is running.
pub struct AsteroidSpawnerSystem {
    /// Clock reset value, milliseconds.
    pub spawn_timeout: i64,
    /// Time left until the next spawn, milliseconds.
    pub spawn_clock: i64,
}

impl AsteroidSpawnerSystem {
    /// The clock stays within one tick below zero and never above its
    /// reset value; the reset value is bounded.
    pub open spec fn wf(self) -> bool {
        &&& 0 <= self.spawn_timeout <= 100_000
        &&& -(DT_LIMIT_MS as i64) <= self.spawn_clock <= self.spawn_timeout
    }
}

impl Default for AsteroidSpawnerSystem {
    /// One asteroid per second, clock due immediately.
    fn default() -> (r: AsteroidSpawnerSystem)
        ensures
            r.spawn_timeout == ASTEROID_SPAWN_TIMEOUT_MS,
            r.spawn_clock == 0,
            r.wf(),
    {
        AsteroidSpawnerSystem { spawn_timeout: ASTEROID_SPAWN_TIMEOUT_MS, spawn_clock: 0 }
    }
}

/// What one asteroid-spawner tick does, as a relation between the system
/// state and world before (`s0`, `w0`) and after (`s1`, `w1`);
/// `AsteroidSpawnerSystem::run` ensures exactly this.
pub open spec fn spec_asteroid_spawner_step(
    s0: AsteroidSpawnerSystem,
    s1: AsteroidSpawnerSystem,
    w0: World,
    w1: World,
) -> bool {
    &&& w1.inv()
    &&& s1.wf()
    &&& s1.spawn_timeout == s0.spawn_timeout
    &&& match w0.game_state {
            GameState::GameStatePlay { .. } => {
                if s0.spawn_clock - w0.delta_time.0 < 0 {
                    &&& s1.spawn_clock == s0.spawn_timeout
                    &&& if w0.window_size.0 > 0 && w0.window_size.1 > 0 {
                        spec_asteroid_spawned(w0, w1)
                    } else {
                        w1.lazy == w0.lazy && w1.entities == w0.entities
                    }
                } else {
                    &&& s1.spawn_clock == s0.spawn_clock - w0.delta_time.0
                    &&& w1.lazy == w0.lazy
                    &&& w1.entities == w0.entities
                }
            },
            _ => {
                &&& s1.spawn_clock == s0.spawn_clock
                &&& w1.lazy == w0.lazy
                &&& w1.entities == w0.entities
            },
        }
    &&& w1.entities.spec_slot_total() <= w0.entities.spec_slot_total() + 1
    &&& w1.transforms == w0.transforms
    &&& w1.velocities == w0.velocities
    &&& w1.displays == w0.displays
    &&& w1.players == w0.players
    &&& w1.colliders == w0.colliders
    &&& w1.lifetimes == w0.lifetimes
    &&& w1.spinners == w0.spinners
    &&& w1.delta_time == w0.delta_time
    &&& w1.window_size == w0.window_size
    &&& w1.game_state == w0.game_state
    &&& w1.scene_state == w0.scene_state
    &&& w1.keyboard_events == w0.keyboard_events
    &&& w1.window_events == w0.window_events
}

impl AsteroidSpawnerSystem {
    /// Outside play, nothing happens. During play the clock counts down
    /// by the tick; when it drops below zero it resets and — if the
    /// window has a nonzero area — one asteroid is spawned through the
    /// deferred buffer with in-range random draws, as
    /// `spec_asteroid_spawned` states. Nothing else in the world changes.
    pub fn run(&mut self, w: &mut World)
        requires
            old(w).inv(),
            old(self).wf(),
            old(w).entities.spec_slot_total() < usize::MAX,
        ensures
            spec_asteroid_spawner_step(*old(self), *final(self), *old(w), *final(w)),
    {
        match w.game_state {
            GameState::GameStatePlay { .. } => {
                let dt = w.delta_time.0;
                self.spawn_clock = self.spawn_clock - dt as i64;
                if self.spawn_clock < 0 {
                    let ww = w.window_size.0;
                    let hh = w.window_size.1;
                    if ww > 0 && hh > 0 {
                        spawn_asteroid(w, ww, hh);
                    }
                    self.spawn_clock = self.spawn_timeout;
                }
            },
            _ => {},
        }
    }
}

/// Draw the random attributes and queue one asteroid.
fn spawn_asteroid(w: &mut World, ww: u32, hh: u32)
    requires
        old(w).inv(),
        old(w).entities.spec_slot_total() < usize::MAX,
        ww == old(w).window_size.0,
        hh == old(w).window_size.1,
        ww > 0,
        hh > 0,
    ensures
        final(w).inv(),
        spec_asteroid_spawned(*old(w), *final(w)),
        final(w).entities.spec_slot_total() <= old(w).entities.spec_slot_total() + 1,
        final(w).transforms == old(w).transforms,
        final(w).velocities == old(w).velocities,
        final(w).displays == old(w).displays,
        final(w).players == old(w).players,
        final(w).colliders == old(w).colliders,
        final(w).lifetimes == old(w).lifetimes,
        final(w).spinners == old(w).spinners,
        final(w).delta_time == old(w).delta_time,
        final(w).window_size == old(w).window_size,
        final(w).game_state == old(w).game_state,
        final(w).scene_state == old(w).scene_state,
        final(w).keyboard_events == old(w).keyboard_events,
        final(w).window_events == old(w).window_events,
{
    let p = w.entities.create();
    let half: i64 = (ww as i64) * UNIT / 2;
    let px = rand_i64(-half, half);
    let dx = rand_i64(-100_000, 100_000);
    let speed = rand_i64(UNIT, 5 * UNIT);
    let sprite: u32 = rand_i64(2, 5) as u32;
    let spin = rand_i64(100_000, 5 * UNIT);

    let scale: i64 = 100 * UNIT - (5 * UNIT - speed) * 10;
    let direction = vec2_normalized(dx, -UNIT);
    w.lazy.push(
        Command::InsertTransform(
            p,
            Transform {
                position: Vec2Fx { x: px, y: (hh as i64) * UNIT },
                rotation: 0,
                scale: Vec2Fx { x: scale, y: scale },
            },
        ),
    );
    w.lazy.push(Command::InsertVelocity(p, Velocity { direction, speed }));
    w.lazy.push(Command::InsertDisplay(p, Display { sprite_idx: sprite }));
    w.lazy.push(Command::InsertSpinner(p, Spinner { speed: spin }));
    w.lazy.push(Command::InsertCollider(p, Collider::new(ColliderTag::Asteroid)));
    w.lazy.push(Command::InsertLifetime(p, Lifetime { remaining: 10 * speed }));
    proof {
        assert(w.lazy.spec_commands() =~= old(w).lazy.spec_commands() + spec_asteroid_cmds(
            p,
            hh,
            px,
            dx,
            speed,
            sprite,
            spin,
        ));
        assert(-((old(w).window_size.0 * UNIT) as int) / 2 <= px < ((old(w).window_size.0
            * UNIT) as int) / 2);
    }
}

} // verus!
