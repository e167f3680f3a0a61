//! The game-state machine. On the init screen a confirm press starts a
//! round: a fresh player entity is spawned through the deferred buffer and
//! the machine moves to play with that entity in the payload. During play
//! the player's health drains at a fixed rate; at zero the player is
//! queued for deletion and the machine moves to the end screen, from
//! which a confirm press returns to the init screen.

use vstd::prelude::*;

use crate::aabb::AABB;
use crate::command::Command;
use crate::component::{Collider, ColliderTag, Display, Player, Transform, Velocity, HEALTH_MAX};
use crate::entity::Entity;
use crate::events::ReaderId;
use crate::math::{Vec2Fx, UNIT};
use crate::resource::{GameState, Key, KeyboardEvent};
use crate::world::{lemma_unique_component_slot, World};

verus! {

/// Health drained per second of play, micro-units; its per-millisecond
/// contribution is `PLAYER_DRAIN_PER_MS`.
pub const GAMERULE_PLAYER_TICK_DAMAGE: i64 = 4_800_000;

/// `GAMERULE_PLAYER_TICK_DAMAGE / 1000`: health drained per millisecond
/// (the division is exact).
pub const PLAYER_DRAIN_PER_MS: i64 = 4800;

/// Whether the events contain a confirm press.
pub open spec fn spec_confirm_pressed(evs: Seq<KeyboardEvent>) -> bool {
    exists|i: int|
        0 <= i < evs.len() && evs[i] == KeyboardEvent::Pressed(Key::Return)
}

/// The five mutations that materialize a fresh player entity `p` at the
/// synchronization point: default transform, default velocity, the player
/// sprite, full health, and a player-tagged unit collider.
pub open spec fn spec_player_spawn_cmds(p: Entity) -> Seq<Command> {
    seq![
        Command::InsertTransform(
            p,
            Transform {
                position: Vec2Fx { x: 0, y: 0 },
                rotation: 0,
                scale: Vec2Fx { x: (50 * UNIT) as i64, y: (50 * UNIT) as i64 },
            },
        ),
        Command::InsertVelocity(p, Velocity { direction: Vec2Fx { x: 0, y: UNIT }, speed: 0 }),
        Command::InsertDisplay(p, Display { sprite_idx: 0 }),
        Command::InsertPlayer(p, Player { health: HEALTH_MAX }),
        Command::InsertCollider(p, Collider { tag: ColliderTag::Player, bounding_box: AABB::unit_spec() }),
    ]
}

/// Mint the player entity and queue its five components, as
/// `spec_player_spawn_cmds` lists them. The entity is live at once (and
/// was not before); its components appear at the synchronization point.
fn spawn_player(w: &mut World) -> (p: Entity)
    requires
        old(w).inv(),
        old(w).entities.spec_slot_total() < usize::MAX,
    ensures
        final(w).inv(),
        final(w).entities.spec_is_live(p),
        !old(w).entities.spec_is_live(p),
        forall|e: Entity|
            e != p ==> final(w).entities.spec_is_live(e) == old(w).entities.spec_is_live(e),
        final(w).entities.spec_slot_total() <= old(w).entities.spec_slot_total() + 1,
        final(w).lazy.spec_commands() == old(w).lazy.spec_commands() + spec_player_spawn_cmds(p),
        final(w).transforms == old(w).transforms,
        final(w).velocities == old(w).velocities,
        final(w).displays == old(w).displays,
        final(w).players == old(w).players,
        final(w).colliders == old(w).colliders,
        final(w).lifetimes == old(w).lifetimes,
        final(w).spinners == old(w).spinners,
        final(w).delta_time == old(w).delta_time,
        final(w).window_size == old(w).window_size,
        final(w).game_state == old(w).game_state,
        final(w).scene_state == old(w).scene_state,
        final(w).keyboard_events == old(w).keyboard_events,
        final(w).window_events == old(w).window_events,
{
    let p = w.entities.create();
    w.lazy.push(Command::InsertTransform(p, Transform::default()));
    w.lazy.push(Command::InsertVelocity(p, Velocity::default()));
    w.lazy.push(Command::InsertDisplay(p, Display { sprite_idx: 0 }));
    w.lazy.push(Command::InsertPlayer(p, Player::default()));
    w.lazy.push(Command::InsertCollider(p, Collider::new(ColliderTag::Player)));
    proof {
        assert(w.lazy.spec_commands() =~= old(w).lazy.spec_commands()
            + spec_player_spawn_cmds(p));
    }
    p
}

/// Drives the init / play / end state machine.
pub struct GameManagerSystem {
    /// Cursor into the keyboard event log, registered at setup.
    pub reader: ReaderId,
}

/// What one state-machine tick does, as a relation between the system
/// state and world before (`s0`, `w0`) and after (`s1`, `w1`);
/// `GameManagerSystem::run` ensures exactly this.
pub open spec fn spec_game_manager_step(
    s0: GameManagerSystem,
    s1: GameManagerSystem,
    w0: World,
    w1: World,
) -> bool {
    &&& w1.inv()
    &&& s1.reader == s0.reader
    &&& w1.entities.spec_slot_total() <= w0.entities.spec_slot_total() + 1
    &&& w1.keyboard_events.spec_events() == w0.keyboard_events.spec_events()
    &&& w1.keyboard_events.spec_reader_count() == w0.keyboard_events.spec_reader_count()
    &&& forall|r2: nat|
            r2 < w0.keyboard_events.spec_reader_count() && r2 != s0.reader.spec_id()
                ==> #[trigger] w1.keyboard_events.spec_cursor(r2) == w0.keyboard_events.spec_cursor(r2)
    &&& match w0.game_state {
            GameState::GameStateInit {} => {
                &&& w1.keyboard_events.spec_cursor(s0.reader.spec_id())
                    == w1.keyboard_events.spec_events().len()
                &&& if spec_confirm_pressed(
                    w0.keyboard_events.spec_pending(s0.reader.spec_id()),
                ) {
                    match w1.game_state {
                        GameState::GameStatePlay { player_entity } => {
                            &&& w1.entities.spec_is_live(player_entity)
                            &&& !w0.entities.spec_is_live(player_entity)
                            &&& w1.lazy.spec_commands() == w0.lazy.spec_commands()
                                + spec_player_spawn_cmds(player_entity)
                            &&& forall|e: Entity|
                                e != player_entity ==> w1.entities.spec_is_live(e)
                                    == w0.entities.spec_is_live(e)
                        },
                        _ => false,
                    }
                } else {
                    &&& w1.game_state == (GameState::GameStateInit {})
                    &&& w1.entities == w0.entities
                    &&& w1.lazy == w0.lazy
                }
                &&& w1.players == w0.players
                &&& w1.scene_state == w0.scene_state
            },
            GameState::GameStatePlay { player_entity } => {
                &&& w1.keyboard_events.spec_cursor(s0.reader.spec_id()) == w0.keyboard_events.spec_cursor(s0.reader.spec_id())
                &&& w1.entities == w0.entities
                &&& match w0.players.spec_get(player_entity) {
                    None => {
                        &&& w1.game_state == (GameState::GameStateEnd {})
                        &&& w1.players == w0.players
                        &&& w1.lazy == w0.lazy
                        &&& w1.scene_state == w0.scene_state
                    },
                    Some(pl) => {
                        let h1 = if pl.health - PLAYER_DRAIN_PER_MS * w0.delta_time.0
                            < 0 {
                            0
                        } else {
                            pl.health - PLAYER_DRAIN_PER_MS * w0.delta_time.0
                        };
                        &&& w1.players.spec_get(player_entity) == Some(
                            Player { health: h1 as i64 },
                        )
                        &&& forall|e: Entity|
                            e != player_entity ==> w1.players.spec_get(e) == w0.players.spec_get(e)
                        &&& w1.scene_state.player_health == h1 / 100
                        &&& w1.scene_state.background_idx == w0.scene_state.background_idx
                        &&& if h1 == 0 {
                            &&& w1.game_state == (GameState::GameStateEnd {})
                            &&& w1.lazy.spec_commands() == w0.lazy.spec_commands().push(Command::DeleteEntity(player_entity))
                        } else {
                            &&& w1.game_state == w0.game_state
                            &&& w1.lazy == w0.lazy
                        }
                    },
                }
            },
            GameState::GameStateEnd {} => {
                &&& w1.keyboard_events.spec_cursor(s0.reader.spec_id())
                    == w1.keyboard_events.spec_events().len()
                &&& w1.game_state == (if spec_confirm_pressed(
                    w0.keyboard_events.spec_pending(s0.reader.spec_id()),
                ) {
                    GameState::GameStateInit {}
                } else {
                    GameState::GameStateEnd {}
                })
                &&& w1.entities == w0.entities
                &&& w1.players == w0.players
                &&& w1.lazy == w0.lazy
                &&& w1.scene_state == w0.scene_state
            },
        }
    &&& w1.transforms == w0.transforms
    &&& w1.velocities == w0.velocities
    &&& w1.displays == w0.displays
    &&& w1.colliders == w0.colliders
    &&& w1.lifetimes == w0.lifetimes
    &&& w1.spinners == w0.spinners
    &&& w1.delta_time == w0.delta_time
    &&& w1.window_size == w0.window_size
    &&& w1.window_events == w0.window_events
}

impl GameManagerSystem {
    /// Set up the system on a world: register its keyboard cursor.
    pub fn new(w: &mut World) -> (s: GameManagerSystem)
        requires
            old(w).inv(),
            old(w).keyboard_events.spec_reader_count() < usize::MAX,
        ensures
            final(w).inv(),
            s.reader.spec_id() == old(w).keyboard_events.spec_reader_count(),
            final(w).keyboard_events.spec_reader_count() == old(w).keyboard_events.spec_reader_count() + 1,
            final(w).keyboard_events.spec_events() == old(w).keyboard_events.spec_events(),
            final(w).keyboard_events.spec_cursor(s.reader.spec_id())
                == final(w).keyboard_events.spec_events().len(),
            forall|r2: nat|
                r2 < old(w).keyboard_events.spec_reader_count() ==> #[trigger] final(w).keyboard_events.spec_cursor(r2) == old(w).keyboard_events.spec_cursor(r2),
            final(w).entities == old(w).entities,
            final(w).transforms == old(w).transforms,
            final(w).velocities == old(w).velocities,
            final(w).displays == old(w).displays,
            final(w).players == old(w).players,
            final(w).colliders == old(w).colliders,
            final(w).lifetimes == old(w).lifetimes,
            final(w).spinners == old(w).spinners,
            final(w).delta_time == old(w).delta_time,
            final(w).window_size == old(w).window_size,
            final(w).game_state == old(w).game_state,
            final(w).scene_state == old(w).scene_state,
            final(w).window_events == old(w).window_events,
            final(w).lazy == old(w).lazy,
    {
        let reader = w.keyboard_events.register_reader();
        GameManagerSystem { reader }
    }

    /// One tick of the state machine.
    ///
    /// On the init screen the system drains its keyboard cursor; a confirm
    /// press spawns a fresh player through the deferred buffer and moves
    /// to play with that entity in the payload. During play the player's
    /// health drops by the drain rate times the tick, clamped at zero, and
    /// the renderer-facing normalized health is recomputed; at zero health
    /// — or if the player entity is already gone — the player is queued
    /// for deletion and the machine moves to the end screen. On the end
    /// screen a confirm press returns to the init screen. Nothing else in
    /// the world changes.
    pub fn run(&mut self, w: &mut World)
        requires
            old(w).inv(),
            old(self).reader.spec_id() < old(w).keyboard_events.spec_reader_count(),
            old(w).entities.spec_slot_total() < usize::MAX,
        ensures
            spec_game_manager_step(*old(self), *final(self), *old(w), *final(w)),
    {
        match w.game_state {
            GameState::GameStateInit {} => {
                if read_confirm(w, self.reader) {
                    let p = spawn_player(w);
                    w.game_state = GameState::GameStatePlay { player_entity: p };
                }
            },
            GameState::GameStatePlay { player_entity } => {
                let pl_opt = match w.players.get(player_entity) {
                    Some(pl_ref) => Some(*pl_ref),
                    None => None,
                };
                match pl_opt {
                    None => {
                        w.game_state = GameState::GameStateEnd {};
                    },
                    Some(pl) => {
                        let dt = w.delta_time.0;
                        let drained: i64 = pl.health - PLAYER_DRAIN_PER_MS * (dt as i64);
                        let h1: i64 = if drained < 0 {
                            0
                        } else {
                            drained
                        };
                        proof {
                            lemma_unique_component_slot(*w, player_entity);
                        }
                        w.players.insert(player_entity, Player { health: h1 });
                        if h1 == 0 {
                            w.lazy.push(Command::DeleteEntity(player_entity));
                            w.game_state = GameState::GameStateEnd {};
                        }
                        w.scene_state.player_health = h1 / 100;
                    },
                }
            },
            GameState::GameStateEnd {} => {
                if read_confirm(w, self.reader) {
                    w.game_state = GameState::GameStateInit {};
                }
            },
        }
    }
}

/// Drain the reader's pending keyboard events and report whether a confirm
/// press was among them.
fn read_confirm(w: &mut World, reader: ReaderId) -> (confirm: bool)
    requires
        old(w).inv(),
        reader.spec_id() < old(w).keyboard_events.spec_reader_count(),
    ensures
        final(w).inv(),
        confirm == spec_confirm_pressed(old(w).keyboard_events.spec_pending(reader.spec_id())),
        final(w).keyboard_events.spec_events() == old(w).keyboard_events.spec_events(),
        final(w).keyboard_events.spec_reader_count() == old(w).keyboard_events.spec_reader_count(),
        final(w).keyboard_events.spec_cursor(reader.spec_id())
            == final(w).keyboard_events.spec_events().len(),
        forall|r2: nat|
            r2 < old(w).keyboard_events.spec_reader_count() && r2 != reader.spec_id()
                ==> #[trigger] final(w).keyboard_events.spec_cursor(r2) == old(w).keyboard_events.spec_cursor(r2),
        final(w).entities == old(w).entities,
        final(w).transforms == old(w).transforms,
        final(w).velocities == old(w).velocities,
        final(w).displays == old(w).displays,
        final(w).players == old(w).players,
        final(w).colliders == old(w).colliders,
        final(w).lifetimes == old(w).lifetimes,
        final(w).spinners == old(w).spinners,
        final(w).delta_time == old(w).delta_time,
        final(w).window_size == old(w).window_size,
        final(w).game_state == old(w).game_state,
        final(w).scene_state == old(w).scene_state,
        final(w).window_events == old(w).window_events,
        final(w).lazy == old(w).lazy,
{
    let ghost pending = old(w).keyboard_events.spec_pending(reader.spec_id());
    let events = w.keyboard_events.read(reader);
    let m = events.len();
    let mut confirm = false;
    let mut j: usize = 0;
    while j < m
        invariant
            m == events.len(),
            events@ == pending,
            0 <= j <= m,
            confirm == spec_confirm_pressed(pending.subrange(0, j as int)),
        decreases m - j,
    {
        proof {
            assert(pending.subrange(0, j as int + 1).drop_last() =~= pending.subrange(
                0,
                j as int,
            ));
        }
        match events[j] {
            KeyboardEvent::Pressed(Key::Return) => {
                confirm = true;
            },
            _ => {},
        }
        proof {
            if confirm != spec_confirm_pressed(pending.subrange(0, j as int)) {
                assert(pending.subrange(0, j as int + 1)[j as int] == pending[j as int]);
            }
            if spec_confirm_pressed(pending.subrange(0, j as int)) {
                let witness = choose|i: int|
                    0 <= i < j && pending.subrange(0, j as int)[i] == KeyboardEvent::Pressed(
                        Key::Return,
                    );
                assert(pending.subrange(0, j as int + 1)[witness] == KeyboardEvent::Pressed(
                    Key::Return,
                ));
            }
        }
        j = j + 1;
    }
    proof {
        assert(pending.subrange(0, m as int) =~= pending);
    }
    confirm
}

} // verus!
