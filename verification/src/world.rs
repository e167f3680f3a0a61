//! The world: sole owner of the entity arena, one storage per component
//! type, the singleton resources, the two event logs and the deferred
//! command buffer. `maintain` is the tick's single synchronization point:
//! it applies every queued mutation in order and empties the buffer.

use vstd::prelude::*;

use crate::command::{component_after, live_after, proj_collider, proj_display, proj_lifetime,
    proj_player, proj_spinner, proj_transform, proj_velocity, Command, CommandBuffer};
use crate::component::{Collider, Display, Lifetime, Player, Spinner, Transform, Velocity};
use crate::entity::{Entity, EntityAllocator};
use crate::events::EventLog;
use crate::resource::{DeltaTime, GameState, GameStateForRenderer, GameWindowSize, KeyboardEvent,
    WindowEvent};
use crate::storage::Storage;

verus! {

/// The explicit context object handed to every system: entity arena,
/// component storages, singleton resources, event logs and the deferred
/// buffer.
pub struct World {
    pub entities: EntityAllocator,
    pub transforms: Storage<Transform>,
    pub velocities: Storage<Velocity>,
    pub displays: Storage<Display>,
    pub players: Storage<Player>,
    pub colliders: Storage<Collider>,
    pub lifetimes: Storage<Lifetime>,
    pub spinners: Storage<Spinner>,
    pub delta_time: DeltaTime,
    pub window_size: GameWindowSize,
    pub game_state: GameState,
    pub scene_state: GameStateForRenderer,
    pub keyboard_events: EventLog<KeyboardEvent>,
    pub window_events: EventLog<WindowEvent>,
    pub lazy: CommandBuffer,
}

impl World {
    /// The world invariant every library operation preserves: the arena and
    /// the logs are well formed, the tick duration is bounded, components
    /// are attached only to live entities and are themselves well formed,
    /// and so is every payload queued in the deferred buffer.
    pub open spec fn inv(self) -> bool {
        &&& self.entities.wf()
        &&& self.keyboard_events.wf()
        &&& self.window_events.wf()
        &&& self.delta_time.wf()
        &&& forall|e: Entity|
            (#[trigger] self.transforms.spec_get(e)) matches Some(t)
                ==> self.entities.spec_is_live(e) && t.wf()
        &&& forall|e: Entity|
            (#[trigger] self.velocities.spec_get(e)) matches Some(v)
                ==> self.entities.spec_is_live(e) && v.wf()
        &&& forall|e: Entity|
            (#[trigger] self.displays.spec_get(e)) matches Some(d)
                ==> self.entities.spec_is_live(e)
        &&& forall|e: Entity|
            (#[trigger] self.players.spec_get(e)) matches Some(p)
                ==> self.entities.spec_is_live(e) && p.wf()
        &&& forall|e: Entity|
            (#[trigger] self.colliders.spec_get(e)) matches Some(c)
                ==> self.entities.spec_is_live(e) && c.wf()
        &&& forall|e: Entity|
            (#[trigger] self.lifetimes.spec_get(e)) matches Some(l)
                ==> self.entities.spec_is_live(e) && l.wf()
        &&& forall|e: Entity|
            (#[trigger] self.spinners.spec_get(e)) matches Some(s)
                ==> self.entities.spec_is_live(e) && s.wf()
        &&& forall|k: int|
            0 <= k < self.lazy.spec_commands().len()
                ==> (#[trigger] self.lazy.spec_commands()[k]).wf()
    }

    /// A fresh world: empty arena, empty storages, empty logs, empty
    /// buffer, default resources, state machine on the init screen.
    pub fn new() -> (w: World)
        ensures
            w.inv(),
            forall|e: Entity| !w.entities.spec_is_live(e),
            w.entities.spec_slot_total() == 0,
            forall|e: Entity| w.transforms.spec_get(e) == None::<Transform>,
            forall|e: Entity| w.velocities.spec_get(e) == None::<Velocity>,
            forall|e: Entity| w.displays.spec_get(e) == None::<Display>,
            forall|e: Entity| w.players.spec_get(e) == None::<Player>,
            forall|e: Entity| w.colliders.spec_get(e) == None::<Collider>,
            forall|e: Entity| w.lifetimes.spec_get(e) == None::<Lifetime>,
            forall|e: Entity| w.spinners.spec_get(e) == None::<Spinner>,
            w.delta_time.0 == 0,
            w.window_size == (GameWindowSize(0, 0)),
            w.game_state == (GameState::GameStateInit {}),
            w.scene_state == (GameStateForRenderer { player_health: 0, background_idx: 0 }),
            w.keyboard_events.spec_events() == Seq::<KeyboardEvent>::empty(),
            w.keyboard_events.spec_reader_count() == 0,
            w.window_events.spec_events() == Seq::<WindowEvent>::empty(),
            w.window_events.spec_reader_count() == 0,
            w.lazy.spec_commands() == Seq::<Command>::empty(),
    {
        World {
            entities: EntityAllocator::new(),
            transforms: Storage::new(),
            velocities: Storage::new(),
            displays: Storage::new(),
            players: Storage::new(),
            colliders: Storage::new(),
            lifetimes: Storage::new(),
            spinners: Storage::new(),
            delta_time: DeltaTime(0),
            window_size: GameWindowSize(0, 0),
            game_state: GameState::GameStateInit {},
            scene_state: GameStateForRenderer { player_health: 0, background_idx: 0 },
            keyboard_events: EventLog::new(),
            window_events: EventLog::new(),
            lazy: CommandBuffer::new(),
        }
    }
}

/// The initial liveness predicate of `w`, for the fold specifications.
pub open spec fn spec_live0(w: World) -> spec_fn(Entity) -> bool {
    |e: Entity| w.entities.spec_is_live(e)
}

/// What each part of `w1` holds after the commands `cmds` run against the
/// initial world `w0`: liveness and each storage equal the fold of the
/// commands, pointwise over entities.
pub open spec fn folds_to(w0: World, w1: World, cmds: Seq<Command>) -> bool {
    &&& forall|e: Entity|
        (#[trigger] w1.entities.spec_is_live(e)) == live_after(spec_live0(w0), cmds, e)
    &&& forall|e: Entity|
        (#[trigger] w1.transforms.spec_get(e)) == component_after(
            |e2: Entity| w0.transforms.spec_get(e2),
            spec_live0(w0),
            |c: Command| proj_transform(c),
            cmds,
            e,
        )
    &&& forall|e: Entity|
        (#[trigger] w1.velocities.spec_get(e)) == component_after(
            |e2: Entity| w0.velocities.spec_get(e2),
            spec_live0(w0),
            |c: Command| proj_velocity(c),
            cmds,
            e,
        )
    &&& forall|e: Entity|
        (#[trigger] w1.displays.spec_get(e)) == component_after(
            |e2: Entity| w0.displays.spec_get(e2),
            spec_live0(w0),
            |c: Command| proj_display(c),
            cmds,
            e,
        )
    &&& forall|e: Entity|
        (#[trigger] w1.players.spec_get(e)) == component_after(
            |e2: Entity| w0.players.spec_get(e2),
            spec_live0(w0),
            |c: Command| proj_player(c),
            cmds,
            e,
        )
    &&& forall|e: Entity|
        (#[trigger] w1.colliders.spec_get(e)) == component_after(
            |e2: Entity| w0.colliders.spec_get(e2),
            spec_live0(w0),
            |c: Command| proj_collider(c),
            cmds,
            e,
        )
    &&& forall|e: Entity|
        (#[trigger] w1.lifetimes.spec_get(e)) == component_after(
            |e2: Entity| w0.lifetimes.spec_get(e2),
            spec_live0(w0),
            |c: Command| proj_lifetime(c),
            cmds,
            e,
        )
    &&& forall|e: Entity|
        (#[trigger] w1.spinners.spec_get(e)) == component_after(
            |e2: Entity| w0.spinners.spec_get(e2),
            spec_live0(w0),
            |c: Command| proj_spinner(c),
            cmds,
            e,
        )
}

/// What one synchronization point does, as a relation between the world
/// before (`w0`) and after (`w1`): the invariant holds, liveness and every
/// storage equal the fold of the queued commands over `w0`, the buffer is
/// empty, and the resources, event logs and the set of entity slots are
/// untouched. `World::maintain` ensures exactly this.
pub open spec fn spec_maintain_step(w0: World, w1: World) -> bool {
    &&& w1.inv()
    &&& folds_to(w0, w1, w0.lazy.spec_commands())
    &&& w1.lazy.spec_commands() == Seq::<Command>::empty()
    &&& w1.entities.spec_slot_total() == w0.entities.spec_slot_total()
    &&& w1.delta_time == w0.delta_time
    &&& w1.window_size == w0.window_size
    &&& w1.game_state == w0.game_state
    &&& w1.scene_state == w0.scene_state
    &&& w1.keyboard_events == w0.keyboard_events
    &&& w1.window_events == w0.window_events
}

impl World {
    /// The synchronization point: apply every queued mutation in order —
    /// an insert attaches its component to a still-live target, a delete
    /// removes the entity and all its components and retires its
    /// identifier, and commands aimed at already-dead identifiers are
    /// skipped — then empty the buffer. Resources, event logs and the set
    /// of entity slots are untouched.
    #[verifier::rlimit(60)]
    pub fn maintain(&mut self)
        requires
            old(self).inv(),
        ensures
            spec_maintain_step(*old(self), *final(self)),
    {
        let ghost cmds = old(self).lazy.spec_commands();
        let n = self.lazy.len();
        let mut k: usize = 0;
        while k < n
            invariant
                self.inv(),
                old(self).inv(),
                n == cmds.len(),
                0 <= k <= n,
                cmds == old(self).lazy.spec_commands(),
                self.lazy == old(self).lazy,
                folds_to(*old(self), *self, cmds.subrange(0, k as int)),
                self.entities.spec_slot_total() == old(self).entities.spec_slot_total(),
                self.delta_time == old(self).delta_time,
                self.window_size == old(self).window_size,
                self.game_state == old(self).game_state,
                self.scene_state == old(self).scene_state,
                self.keyboard_events == old(self).keyboard_events,
                self.window_events == old(self).window_events,
            decreases n - k,
        {
            let cmd = self.lazy.get(k);
            let ghost prefix = cmds.subrange(0, k as int);
            let ghost prefix1 = cmds.subrange(0, k as int + 1);
            proof {
                assert(prefix1.drop_last() =~= prefix);
                assert(prefix1.last() == cmds[k as int]);
            }
            match cmd {
                Command::InsertTransform(e, t) => {
                    if self.entities.is_live(e) {
                        proof {
                            lemma_unique_component_slot(*self, e);
                        }
                        self.transforms.insert(e, t);
                    }
                },
                Command::InsertVelocity(e, v) => {
                    if self.entities.is_live(e) {
                        proof {
                            lemma_unique_component_slot(*self, e);
                        }
                        self.velocities.insert(e, v);
                    }
                },
                Command::InsertDisplay(e, d) => {
                    if self.entities.is_live(e) {
                        proof {
                            lemma_unique_component_slot(*self, e);
                        }
                        self.displays.insert(e, d);
                    }
                },
                Command::InsertPlayer(e, p) => {
                    if self.entities.is_live(e) {
                        proof {
                            lemma_unique_component_slot(*self, e);
                        }
                        self.players.insert(e, p);
                    }
                },
                Command::InsertCollider(e, c) => {
                    if self.entities.is_live(e) {
                        proof {
                            lemma_unique_component_slot(*self, e);
                        }
                        self.colliders.insert(e, c);
                    }
                },
                Command::InsertLifetime(e, l) => {
                    if self.entities.is_live(e) {
                        proof {
                            lemma_unique_component_slot(*self, e);
                        }
                        self.lifetimes.insert(e, l);
                    }
                },
                Command::InsertSpinner(e, s) => {
                    if self.entities.is_live(e) {
                        proof {
                            lemma_unique_component_slot(*self, e);
                        }
                        self.spinners.insert(e, s);
                    }
                },
                Command::DeleteEntity(e) => {
                    if self.entities.is_live(e) {
                        self.transforms.remove(e);
                        self.velocities.remove(e);
                        self.displays.remove(e);
                        self.players.remove(e);
                        self.colliders.remove(e);
                        self.lifetimes.remove(e);
                        self.spinners.remove(e);
                        self.entities.delete(e);
                    }
                },
            }
            k = k + 1;
        }
        proof {
            assert(cmds.subrange(0, n as int) =~= cmds);
        }
        self.lazy.clear();
    }
}

/// The deferred-buffer guarantee, stated for a queued component insert:
/// while the tick runs, a queued mutation only ever extends the buffer —
/// every queue operation leaves all storages untouched — and at the
/// synchronization point the storage holds exactly the payload of the
/// last insert queued for a live entity that no queued command deletes.
/// `w1` is the world `maintain` produced from `w0` (its `folds_to`
/// postcondition), `k` the position of that last insert.
pub proof fn lemma_deferred_insert_applied(w0: World, w1: World, k: int, e: Entity, t: Transform)
    requires
        folds_to(w0, w1, w0.lazy.spec_commands()),
        w0.entities.spec_is_live(e),
        0 <= k < w0.lazy.spec_commands().len(),
        w0.lazy.spec_commands()[k] == Command::InsertTransform(e, t),
        forall|j: int|
            0 <= j < w0.lazy.spec_commands().len() ==> w0.lazy.spec_commands()[j]
                != Command::DeleteEntity(e),
        forall|j: int|
            k < j < w0.lazy.spec_commands().len() ==> ((#[trigger] w0.lazy.spec_commands()[j])
                matches Command::InsertTransform(e2, _) ==> e2 != e),
    ensures
        w1.transforms.spec_get(e) == Some(t),
{
    let cmds = w0.lazy.spec_commands();
    let get0 = |e2: Entity| w0.transforms.spec_get(e2);
    let live0 = spec_live0(w0);
    let proj = |c: Command| crate::command::proj_transform(c);
    assert forall|j: int| k < j < cmds.len() implies match proj(#[trigger] cmds[j]) {
        Some((e2, _)) => e2 != e,
        None => true,
    } by {
        match cmds[j] {
            Command::InsertTransform(e2, t2) => {
                assert(e2 != e);
            },
            _ => {},
        }
    }
    crate::command::lemma_last_insert_applied::<Transform>(get0, live0, proj, cmds, k, e, t);
}

/// The other half of the deferred-buffer guarantee: a queued deletion is
/// applied at the synchronization point — the deleted entity is not live
/// in the world `maintain` produced, whatever else the buffer held.
pub proof fn lemma_deferred_delete_applied(w0: World, w1: World, j: int, e: Entity)
    requires
        folds_to(w0, w1, w0.lazy.spec_commands()),
        0 <= j < w0.lazy.spec_commands().len(),
        w0.lazy.spec_commands()[j] == Command::DeleteEntity(e),
    ensures
        !w1.entities.spec_is_live(e),
{
    crate::command::lemma_delete_queued_kills(
        spec_live0(w0),
        w0.lazy.spec_commands(),
        j,
        e,
    );
}

/// No other generation of a live entity's slot holds any component: the
/// world invariant ties components to live entities and at most one
/// generation of a slot is live. This is what makes an insert for a live
/// entity leave every other entity's components unchanged.
pub proof fn lemma_unique_component_slot(w: World, e: Entity)
    requires
        w.inv(),
        w.entities.spec_is_live(e),
    ensures
        e.index < usize::MAX,
        forall|e2: Entity|
            e2.index == e.index && e2.generation != e.generation
                ==> w.transforms.spec_get(e2) == None::<Transform>
                    && w.velocities.spec_get(e2) == None::<Velocity>
                    && w.displays.spec_get(e2) == None::<Display>
                    && w.players.spec_get(e2) == None::<Player>
                    && w.colliders.spec_get(e2) == None::<Collider>
                    && w.lifetimes.spec_get(e2) == None::<Lifetime>
                    && w.spinners.spec_get(e2) == None::<Spinner>,
{
    w.entities.lemma_live_index_bound(e);
    assert forall|e2: Entity|
        e2.index == e.index && e2.generation != e.generation implies w.transforms.spec_get(e2)
        == None::<Transform> && w.velocities.spec_get(e2) == None::<Velocity>
        && w.displays.spec_get(e2) == None::<Display> && w.players.spec_get(e2) == None::<Player>
        && w.colliders.spec_get(e2) == None::<Collider> && w.lifetimes.spec_get(e2)
        == None::<Lifetime> && w.spinners.spec_get(e2) == None::<Spinner> by {
        if w.entities.spec_is_live(e2) {
            w.entities.lemma_live_same_index(e, e2);
        }
        assert(!w.entities.spec_is_live(e2));
        if w.transforms.spec_get(e2) is Some {
            assert(w.entities.spec_is_live(e2));
        }
        if w.velocities.spec_get(e2) is Some {
            assert(w.entities.spec_is_live(e2));
        }
        if w.displays.spec_get(e2) is Some {
            assert(w.entities.spec_is_live(e2));
        }
        if w.players.spec_get(e2) is Some {
            assert(w.entities.spec_is_live(e2));
        }
        if w.colliders.spec_get(e2) is Some {
            assert(w.entities.spec_is_live(e2));
        }
        if w.lifetimes.spec_get(e2) is Some {
            assert(w.entities.spec_is_live(e2));
        }
        if w.spinners.spec_get(e2) is Some {
            assert(w.entities.spec_is_live(e2));
        }
    }
}

} // verus!
