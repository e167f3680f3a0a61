//! Particle spawning: a fast countdown clock that, during play, streams
//! small short-lived sprites falling straight down from the window's top
//! edge at randomized positions and speeds.

use vstd::prelude::*;

use crate::command::Command;
use crate::component::{Display, Lifetime, Transform, Velocity};
use crate::entity::Entity;
use crate::math::{Vec2Fx, UNIT};
use crate::resource::{GameState, DT_LIMIT_MS};
use crate::rng::rand_i64;
use crate::world::World;

verus! {

/// Milliseconds between particle spawns.
pub const PARTICLE_SPAWN_TIMEOUT_MS: i64 = 50;

/// The four mutations that materialize one particle `p`, given the random
/// draws: a top-edge position, a straight-down heading at speed `speed`,
/// a small fixed size, the particle sprite, and a lifetime of ten seconds
/// per unit of speed.
pub open spec fn spec_particle_cmds(p: Entity, hh: u32, px: i64, speed: i64) -> Seq<Command> {
    seq![
        Command::InsertTransform(
            p,
            Transform {
                position: Vec2Fx { x: px, y: (hh * UNIT) as i64 },
                rotation: 0,
                scale: Vec2Fx { x: (2 * UNIT) as i64, y: (2 * UNIT) as i64 },
            },
        ),
        Command::InsertVelocity(
            p,
            Velocity { direction: Vec2Fx { x: 0, y: -UNIT as i64 }, speed },
        ),
        Command::InsertDisplay(p, Display { sprite_idx: 2 }),
        Command::InsertLifetime(p, Lifetime { remaining: (10 * speed) as i64 }),
    ]
}

/// Whether a particle spawn happened with in-range draws: a fresh entity
/// whose four mutations extend the buffer, positioned across the window
/// width at the top edge, with a speed between five and ten units.
pub open spec fn spec_particle_spawned(w0: World, w1: World) -> bool {
    exists|p: Entity, px: i64, speed: i64|
        {
            &&& !w0.entities.spec_is_live(p)
            &&& w1.entities.spec_is_live(p)
            &&& (forall|e: Entity|
                e != p ==> w1.entities.spec_is_live(e) == w0.entities.spec_is_live(e))
            &&& -((w0.window_size.0 * UNIT) as int) / 2 <= px < ((w0.window_size.0 * UNIT) as int)
                / 2
            &&& 5 * UNIT <= speed < 10 * UNIT
            &&& w1.lazy.spec_commands() == w0.lazy.spec_commands() + #[trigger] spec_particle_cmds(
                p,
                w0.window_size.1,
                px,
                speed,
            )
        }
}

/// Streams falling particles on a fast countdown clock while a round is
/// running.
pub struct ParticleSpawnerSystem {
    /// Clock reset value, milliseconds.
    pub spawn_timeout: i64,
    /// Time left until the next spawn, milliseconds.
    pub spawn_clock: i64,
}

impl ParticleSpawnerSystem {
    /// The clock stays within one tick below zero and never above its
    /// reset value; the reset value is bounded.
    pub open spec fn wf(self) -> bool {
        &&& 0 <= self.spawn_timeout <= 100_000
        &&& -(DT_LIMIT_MS as i64) <= self.spawn_clock <= self.spawn_timeout
    }
}

impl Default for ParticleSpawnerSystem {
    /// Twenty particles per second, clock due immediately.
    fn default() -> (r: ParticleSpawnerSystem)
        ensures
            r.spawn_timeout == PARTICLE_SPAWN_TIMEOUT_MS,
            r.spawn_clock == 0,
            r.wf(),
    {
        ParticleSpawnerSystem { spawn_timeout: PARTICLE_SPAWN_TIMEOUT_MS, spawn_clock: 0 }
    }
}

/// What one particle-spawner tick does, as a relation between the system
/// state and world before (`s0`, `w0`) and after (`s1`, `w1`);
/// `ParticleSpawnerSystem::run` ensures exactly this.
pub open spec fn spec_particle_spawner_step(
    s0: ParticleSpawnerSystem,
    s1: ParticleSpawnerSystem,
    w0: World,
    w1: World,
) -> bool {
    &&& w1.inv()
    &&& s1.wf()
    &&& s1.spawn_timeout == s0.spawn_timeout
    &&& match w0.game_state {
            GameState::GameStatePlay { .. } => {
                if s0.spawn_clock - w0.delta_time.0 < 0 {
                    &&& s1.spawn_clock == s0.spawn_timeout
                    &&& if w0.window_size.0 > 0 && w0.window_size.1 > 0 {
                        spec_particle_spawned(w0, w1)
                    } else {
                        w1.lazy == w0.lazy && w1.entities == w0.entities
                    }
                } else {
                    &&& s1.spawn_clock == s0.spawn_clock - w0.delta_time.0
                    &&& w1.lazy == w0.lazy
                    &&& w1.entities == w0.entities
                }
            },
            _ => {
                &&& s1.spawn_clock == s0.spawn_clock
                &&& w1.lazy == w0.lazy
                &&& w1.entities == w0.entities
            },
        }
    &&& w1.entities.spec_slot_total() <= w0.entities.spec_slot_total() + 1
    &&& w1.transforms == w0.transforms
    &&& w1.velocities == w0.velocities
    &&& w1.displays == w0.displays
    &&& w1.players == w0.players
    &&& w1.colliders == w0.colliders
    &&& w1.lifetimes == w0.lifetimes
    &&& w1.spinners == w0.spinners
    &&& w1.delta_time == w0.delta_time
    &&& w1.window_size == w0.window_size
    &&& w1.game_state == w0.game_state
    &&& w1.scene_state == w0.scene_state
    &&& w1.keyboard_events == w0.keyboard_events
    &&& w1.window_events == w0.window_events
}

impl ParticleSpawnerSystem {
    /// Outside play, nothing happens. During play the clock counts down
    /// by the tick; when it drops below zero it resets and — if the
    /// window has a nonzero area — one particle is spawned through the
    /// deferred buffer with in-range random draws, as
    /// `spec_particle_spawned` states. Nothing else in the world changes.
    pub fn run(&mut self, w: &mut World)
        requires
            old(w).inv(),
            old(self).wf(),
            old(w).entities.spec_slot_total() < usize::MAX,
        ensures
            spec_particle_spawner_step(*old(self), *final(self), *old(w), *final(w)),
    {
        match w.game_state {
            GameState::GameStatePlay { .. } => {
                let dt = w.delta_time.0;
                self.spawn_clock = self.spawn_clock - dt as i64;
                if self.spawn_clock < 0 {
                    let ww = w.window_size.0;
                    let hh = w.window_size.1;
                    if ww > 0 && hh > 0 {
                        let p = w.entities.create();
                        let half: i64 = (ww as i64) * UNIT / 2;
                        let px = rand_i64(-half, half);
                        let speed = rand_i64(5 * UNIT, 10 * UNIT);
                        w.lazy.push(
                            Command::InsertTransform(
                                p,
                                Transform {
                                    position: Vec2Fx { x: px, y: (hh as i64) * UNIT },
                                    rotation: 0,
                                    scale: Vec2Fx { x: 2 * UNIT, y: 2 * UNIT },
                                },
                            ),
                        );
                        w.lazy.push(
                            Command::InsertVelocity(
                                p,
                                Velocity { direction: Vec2Fx { x: 0, y: -UNIT }, speed },
                            ),
                        );
                        w.lazy.push(Command::InsertDisplay(p, Display { sprite_idx: 2 }));
                        w.lazy.push(Command::InsertLifetime(p, Lifetime { remaining: 10 * speed }));
                        proof {
                            assert(w.lazy.spec_commands() =~= old(w).lazy.spec_commands()
                                + spec_particle_cmds(p, hh, px, speed));
                        }
                    }
                    self.spawn_clock = self.spawn_timeout;
                }
            },
            _ => {},
        }
    }
}

} // verus!
