//! The assembled simulation: the world, every per-tick system with its
//! state, and the built dispatcher. One `on_update` call is one fixed
//! simulation step — delta written, update systems run in dependency
//! order, deferred mutations applied at the synchronization point — and
//! one `on_render` call produces the frame for the external renderer.

use vstd::prelude::*;

use crate::dispatcher::{AccessSet, Dispatcher, DispatchError, SystemDecl, SystemId,
    ACCESS_COLLIDER, ACCESS_DELTA_TIME, ACCESS_DISPLAY, ACCESS_ENTITIES, ACCESS_GAME_STATE,
    ACCESS_KEYBOARD_EVENTS, ACCESS_LIFETIME, ACCESS_PLAYER, ACCESS_SCENE_STATE, ACCESS_SPINNER,
    ACCESS_TRANSFORM, ACCESS_VELOCITY, ACCESS_WINDOW_EVENTS, ACCESS_WINDOW_SIZE};
use crate::resource::{DeltaTime, KeyboardEvent, WindowEvent, DT_LIMIT_MS};
use crate::system::asteroid_spawner_system::{spec_asteroid_spawner_step, AsteroidSpawnerSystem};
use crate::system::entity_lifetime_system::{spec_entity_lifetime_step, EntityLifetimeSystem};
use crate::system::entity_spinner_system::{spec_entity_spinner_step, EntitySpinnerSystem};
use crate::system::game_manager_system::{spec_game_manager_step, GameManagerSystem};
use crate::system::particle_spawner_system::{spec_particle_spawner_step, ParticleSpawnerSystem};
use crate::system::player_bounds_enforcer_system::{spec_bounds_enforcer_step,
    PlayerBoundsEnforcerSystem};
use crate::system::player_collision_system::{spec_player_collision_step, PlayerCollisionSystem};
use crate::system::player_movement_system::{spec_player_movement_step, PlayerMovementSystem};
use crate::system::render_system::{Frame, RenderSystem};
use crate::system::repair_pack_manager_system::{spec_repair_pack_step, RepairPackManagerSystem};
use crate::system::{spec_background_animator_step, spec_velocity_applicator_step,
    BackgroundAnimatorSystem, VelocityApplicatorSystem};
use crate::world::{spec_maintain_step, World};

verus! {

/// The fixed update schedule `App::new` declares, in execution order:
/// the state machine first, then the systems that depend on it, then the
/// independent passes.
pub open spec fn spec_update_schedule(d: Dispatcher) -> bool {
    &&& d.spec_decls().len() == 11
    &&& d.spec_decls()[0].id == SystemId::GameManager
    &&& d.spec_decls()[1].id == SystemId::AsteroidSpawner
    &&& d.spec_decls()[2].id == SystemId::ParticleSpawner
    &&& d.spec_decls()[3].id == SystemId::PlayerMovement
    &&& d.spec_decls()[4].id == SystemId::PlayerCollision
    &&& d.spec_decls()[5].id == SystemId::VelocityApplicator
    &&& d.spec_decls()[6].id == SystemId::PlayerBoundsEnforcer
    &&& d.spec_decls()[7].id == SystemId::EntityLifetime
    &&& d.spec_decls()[8].id == SystemId::RepairPackManager
    &&& d.spec_decls()[9].id == SystemId::EntitySpinner
    &&& d.spec_decls()[10].id == SystemId::BackgroundAnimator
}

/// The whole simulation core: world, systems and schedule.
pub struct App {
    pub world: World,
    pub update_order: Dispatcher,
    pub render_order: Dispatcher,
    pub game_manager: GameManagerSystem,
    pub asteroid_spawner: AsteroidSpawnerSystem,
    pub particle_spawner: ParticleSpawnerSystem,
    pub player_movement: PlayerMovementSystem,
    pub player_collision: PlayerCollisionSystem,
    pub velocity_applicator: VelocityApplicatorSystem,
    pub bounds_enforcer: PlayerBoundsEnforcerSystem,
    pub entity_lifetime: EntityLifetimeSystem,
    pub repair_pack_manager: RepairPackManagerSystem,
    pub entity_spinner: EntitySpinnerSystem,
    pub background_animator: BackgroundAnimatorSystem,
    pub render_system: RenderSystem,
}

impl App {
    /// Everything an update step relies on: the world invariant, every
    /// registered cursor still naming a reader of its log, and every
    /// system clock in its range.
    pub open spec fn wf(self) -> bool {
        &&& self.world.inv()
        &&& self.game_manager.reader.spec_id() < self.world.keyboard_events.spec_reader_count()
        &&& self.player_movement.reader.spec_id()
            < self.world.keyboard_events.spec_reader_count()
        &&& self.render_system.reader.spec_id() < self.world.window_events.spec_reader_count()
        &&& self.player_movement.wf()
        &&& self.asteroid_spawner.wf()
        &&& self.particle_spawner.wf()
        &&& self.repair_pack_manager.wf()
        &&& self.background_animator.wf()
        &&& self.update_order.wf()
        &&& spec_update_schedule(self.update_order)
        &&& self.render_order.wf()
    }

    /// Assemble a fresh simulation: an empty world on the init screen,
    /// every system registered (with its event cursors), and the dependency
    /// schedule built — the spawners and movement run after the game
    /// manager, and conflicting access sets are ordered. Building cannot
    /// actually fail, since the static declarations only name earlier
    /// systems; the error branch is never taken.
    pub fn new() -> (r: Result<App, DispatchError>)
        ensures
            match r {
                Ok(app) => {
                    &&& app.wf()
                    &&& app.world.game_state == (crate::resource::GameState::GameStateInit {})
                    &&& forall|e: crate::entity::Entity| !app.world.entities.spec_is_live(e)
                    &&& app.world.lazy.spec_commands() == Seq::<crate::command::Command>::empty()
                    &&& app.world.keyboard_events.spec_events() == Seq::<KeyboardEvent>::empty()
                    &&& app.world.window_events.spec_events() == Seq::<WindowEvent>::empty()
                },
                Err(_) => false,
            },
    {
        let mut world = World::new();
        let game_manager = GameManagerSystem::new(&mut world);
        let player_movement = PlayerMovementSystem::new(&mut world);
        let render_system = RenderSystem::new(&mut world);

        let mut decls: Vec<SystemDecl> = Vec::new();
        decls.push(
            SystemDecl {
                id: SystemId::GameManager,
                deps: Vec::new(),
                access: AccessSet {
                    reads: ACCESS_DELTA_TIME | ACCESS_KEYBOARD_EVENTS,
                    writes: ACCESS_PLAYER | ACCESS_ENTITIES | ACCESS_GAME_STATE
                        | ACCESS_SCENE_STATE,
                },
            },
        );
        let mut deps_asteroid: Vec<SystemId> = Vec::new();
        deps_asteroid.push(SystemId::GameManager);
        decls.push(
            SystemDecl {
                id: SystemId::AsteroidSpawner,
                deps: deps_asteroid,
                access: AccessSet {
                    reads: ACCESS_GAME_STATE | ACCESS_DELTA_TIME | ACCESS_WINDOW_SIZE,
                    writes: ACCESS_ENTITIES,
                },
            },
        );
        let mut deps_particle: Vec<SystemId> = Vec::new();
        deps_particle.push(SystemId::GameManager);
        decls.push(
            SystemDecl {
                id: SystemId::ParticleSpawner,
                deps: deps_particle,
                access: AccessSet {
                    reads: ACCESS_GAME_STATE | ACCESS_DELTA_TIME | ACCESS_WINDOW_SIZE,
                    writes: ACCESS_ENTITIES,
                },
            },
        );
        let mut deps_movement: Vec<SystemId> = Vec::new();
        deps_movement.push(SystemId::GameManager);
        decls.push(
            SystemDecl {
                id: SystemId::PlayerMovement,
                deps: deps_movement,
                access: AccessSet {
                    reads: ACCESS_PLAYER | ACCESS_KEYBOARD_EVENTS | ACCESS_DELTA_TIME,
                    writes: ACCESS_TRANSFORM | ACCESS_VELOCITY,
                },
            },
        );
        let mut deps_collision: Vec<SystemId> = Vec::new();
        deps_collision.push(SystemId::GameManager);
        decls.push(
            SystemDecl {
                id: SystemId::PlayerCollision,
                deps: deps_collision,
                access: AccessSet {
                    reads: ACCESS_TRANSFORM | ACCESS_COLLIDER | ACCESS_DELTA_TIME,
                    writes: ACCESS_PLAYER | ACCESS_ENTITIES,
                },
            },
        );
        decls.push(
            SystemDecl {
                id: SystemId::VelocityApplicator,
                deps: Vec::new(),
                access: AccessSet { reads: ACCESS_VELOCITY, writes: ACCESS_TRANSFORM },
            },
        );
        decls.push(
            SystemDecl {
                id: SystemId::PlayerBoundsEnforcer,
                deps: Vec::new(),
                access: AccessSet {
                    reads: ACCESS_PLAYER | ACCESS_WINDOW_SIZE,
                    writes: ACCESS_VELOCITY | ACCESS_TRANSFORM,
                },
            },
        );
        decls.push(
            SystemDecl {
                id: SystemId::EntityLifetime,
                deps: Vec::new(),
                access: AccessSet {
                    reads: ACCESS_DELTA_TIME,
                    writes: ACCESS_LIFETIME | ACCESS_ENTITIES,
                },
            },
        );
        decls.push(
            SystemDecl {
                id: SystemId::RepairPackManager,
                deps: Vec::new(),
                access: AccessSet {
                    reads: ACCESS_PLAYER | ACCESS_TRANSFORM | ACCESS_COLLIDER | ACCESS_GAME_STATE
                        | ACCESS_DELTA_TIME | ACCESS_WINDOW_SIZE,
                    writes: ACCESS_ENTITIES,
                },
            },
        );
        decls.push(
            SystemDecl {
                id: SystemId::EntitySpinner,
                deps: Vec::new(),
                access: AccessSet {
                    reads: ACCESS_SPINNER | ACCESS_DELTA_TIME,
                    writes: ACCESS_TRANSFORM,
                },
            },
        );
        decls.push(
            SystemDecl {
                id: SystemId::BackgroundAnimator,
                deps: Vec::new(),
                access: AccessSet {
                    reads: ACCESS_GAME_STATE | ACCESS_DELTA_TIME,
                    writes: ACCESS_SCENE_STATE,
                },
            },
        );
        proof {
            assert forall|i: int, k: int|
                #![trigger decls@[i].deps@[k]]
                0 <= i < decls@.len() && 0 <= k < decls@[i].deps@.len() implies exists|j: int|
                0 <= j < i && decls@[j].id == decls@[i].deps@[k] by {
                assert(decls@[0].deps@.len() == 0);
                assert(decls@[5].deps@.len() == 0);
                assert(decls@[6].deps@.len() == 0);
                assert(decls@[7].deps@.len() == 0);
                assert(decls@[8].deps@.len() == 0);
                assert(decls@[9].deps@.len() == 0);
                assert(decls@[10].deps@.len() == 0);
                if i == 1 || i == 2 || i == 3 || i == 4 {
                    assert(decls@[i].deps@[k] == SystemId::GameManager);
                    assert(decls@[0].id == SystemId::GameManager);
                    assert(0 <= 0 < i && decls@[0].id == decls@[i].deps@[k]);
                }
            }
        }
        let update_order = match Dispatcher::build(decls) {
            Ok(d) => d,
            Err(e) => {
                return Err(e);
            },
        };

        let mut render_decls: Vec<SystemDecl> = Vec::new();
        render_decls.push(
            SystemDecl {
                id: SystemId::Render,
                deps: Vec::new(),
                access: AccessSet {
                    reads: ACCESS_TRANSFORM | ACCESS_DISPLAY | ACCESS_WINDOW_EVENTS
                        | ACCESS_SCENE_STATE,
                    writes: ACCESS_WINDOW_SIZE,
                },
            },
        );
        proof {
            assert forall|i: int, k: int|
                #![trigger render_decls@[i].deps@[k]]
                0 <= i < render_decls@.len() && 0 <= k < render_decls@[i].deps@.len()
                implies exists|j: int|
                0 <= j < i && render_decls@[j].id == render_decls@[i].deps@[k] by {
                assert(render_decls@[0].deps@.len() == 0);
            }
        }
        let render_order = match Dispatcher::build(render_decls) {
            Ok(d) => d,
            Err(e) => {
                return Err(e);
            },
        };

        Ok(
            App {
                world,
                update_order,
                render_order,
                game_manager,
                asteroid_spawner: AsteroidSpawnerSystem::default(),
                particle_spawner: ParticleSpawnerSystem::default(),
                player_movement,
                player_collision: PlayerCollisionSystem {},
                velocity_applicator: VelocityApplicatorSystem {},
                bounds_enforcer: PlayerBoundsEnforcerSystem {},
                entity_lifetime: EntityLifetimeSystem {},
                repair_pack_manager: RepairPackManagerSystem::default(),
                entity_spinner: EntitySpinnerSystem {},
                background_animator: BackgroundAnimatorSystem::default(),
                render_system,
            },
        )
    }

    /// Append one keyboard transition to the event log; it becomes
    /// pending for every registered reader, after everything appended
    /// before it. Nothing else changes.
    pub fn on_keyboard_event(&mut self, e: KeyboardEvent)
        requires
            old(self).wf(),
        ensures
            final(self).wf(),
            final(self).world.keyboard_events.spec_events() == old(
                self,
            ).world.keyboard_events.spec_events().push(e),
            final(self).world.window_events == old(self).world.window_events,
            final(self).world.game_state == old(self).world.game_state,
    {
        self.world.keyboard_events.append(e);
    }

    /// Append one window event to the event log; it becomes pending for
    /// every registered reader. Nothing else changes.
    pub fn on_window_event(&mut self, e: WindowEvent)
        requires
            old(self).wf(),
        ensures
            final(self).wf(),
            final(self).world.window_events.spec_events() == old(
                self,
            ).world.window_events.spec_events().push(e),
            final(self).world.keyboard_events == old(self).world.keyboard_events,
            final(self).world.game_state == old(self).world.game_state,
    {
        self.world.window_events.append(e);
    }

    /// One fixed simulation step of `delta_ms` milliseconds, together
    /// with the proof of what it did. The returned ghost trace holds the
    /// world right after the tick duration was written (`trace[0]`) and
    /// after each of the eleven update systems ran, in `update_order`'s
    /// declaration order (`trace[1]` to `trace[11]`); the `ensures` chain
    /// each consecutive pair through that system's step relation and end
    /// with the synchronization point (`spec_maintain_step`), which folds
    /// the deferred buffer into the final world. Every guarantee of a
    /// tick — the state machine stepped, spawns queued, input folded into
    /// movement, collisions resolved, positions integrated and bounced,
    /// lifetimes expired, queued mutations applied and deleted
    /// identifiers dead — follows from this chain and the step relations.
    pub fn on_update(&mut self, delta_ms: u64) -> (trace: Ghost<Seq<World>>)
        requires
            old(self).wf(),
            delta_ms <= DT_LIMIT_MS,
            old(self).world.entities.spec_slot_total() + 5 < usize::MAX,
        ensures
            final(self).wf(),
            trace@.len() == 12,
            trace@[0] == (World { delta_time: DeltaTime(delta_ms), ..old(self).world }),
            spec_game_manager_step(
                old(self).game_manager,
                final(self).game_manager,
                trace@[0],
                trace@[1],
            ),
            spec_asteroid_spawner_step(
                old(self).asteroid_spawner,
                final(self).asteroid_spawner,
                trace@[1],
                trace@[2],
            ),
            spec_particle_spawner_step(
                old(self).particle_spawner,
                final(self).particle_spawner,
                trace@[2],
                trace@[3],
            ),
            spec_player_movement_step(
                old(self).player_movement,
                final(self).player_movement,
                trace@[3],
                trace@[4],
            ),
            spec_player_collision_step(trace@[4], trace@[5]),
            spec_velocity_applicator_step(trace@[5], trace@[6]),
            spec_bounds_enforcer_step(trace@[6], trace@[7]),
            spec_entity_lifetime_step(trace@[7], trace@[8]),
            spec_repair_pack_step(
                old(self).repair_pack_manager,
                final(self).repair_pack_manager,
                trace@[8],
                trace@[9],
            ),
            spec_entity_spinner_step(trace@[9], trace@[10]),
            spec_background_animator_step(
                old(self).background_animator,
                final(self).background_animator,
                trace@[10],
                trace@[11],
            ),
            spec_maintain_step(trace@[11], final(self).world),
            final(self).world.delta_time == (DeltaTime(delta_ms)),
            final(self).world.lazy.spec_commands() == Seq::<crate::command::Command>::empty(),
            final(self).world.entities.spec_slot_total() <= old(
                self,
            ).world.entities.spec_slot_total() + 4,
            final(self).world.keyboard_events.spec_events() == old(
                self,
            ).world.keyboard_events.spec_events(),
            final(self).world.window_events == old(self).world.window_events,
            final(self).world.window_size == old(self).world.window_size,
            final(self).world.keyboard_events.spec_reader_count() == old(
                self,
            ).world.keyboard_events.spec_reader_count(),
    {
        self.world.delta_time = DeltaTime(delta_ms);
        let ghost w0 = self.world;
        self.game_manager.run(&mut self.world);
        let ghost w1 = self.world;
        self.asteroid_spawner.run(&mut self.world);
        let ghost w2 = self.world;
        self.particle_spawner.run(&mut self.world);
        let ghost w3 = self.world;
        self.player_movement.run(&mut self.world);
        let ghost w4 = self.world;
        self.player_collision.run(&mut self.world);
        let ghost w5 = self.world;
        self.velocity_applicator.run(&mut self.world);
        let ghost w6 = self.world;
        self.bounds_enforcer.run(&mut self.world);
        let ghost w7 = self.world;
        self.entity_lifetime.run(&mut self.world);
        let ghost w8 = self.world;
        self.repair_pack_manager.run(&mut self.world);
        let ghost w9 = self.world;
        self.entity_spinner.run(&mut self.world);
        let ghost w10 = self.world;
        self.background_animator.run(&mut self.world);
        let ghost w11 = self.world;
        self.world.maintain();
        let ghost trace_seq = seq![w0, w1, w2, w3, w4, w5, w6, w7, w8, w9, w10, w11];
        Ghost(trace_seq)
    }

    /// One render pass: drain resize events into the window size and hand
    /// back the frame — the sprite list over every transform-and-display
    /// entity and the scene state — for the external renderer.
    pub fn on_render(&mut self) -> (frame: Frame)
        requires
            old(self).wf(),
        ensures
            final(self).wf(),
            frame.instances@ == crate::system::render_system::spec_instances(
                old(self).world,
                old(self).world.transforms.spec_slot_count() as int,
            ),
            frame.background_idx == old(self).world.scene_state.background_idx,
            frame.player_health == old(self).world.scene_state.player_health,
            final(self).world.window_size == crate::system::render_system::spec_size_after(
                old(self).world.window_events.spec_pending(
                    old(self).render_system.reader.spec_id(),
                ),
                old(self).world.window_size,
            ),
            final(self).world.game_state == old(self).world.game_state,
            final(self).world.scene_state == old(self).world.scene_state,
    {
        self.render_system.run(&mut self.world)
    }
}

} // verus!
