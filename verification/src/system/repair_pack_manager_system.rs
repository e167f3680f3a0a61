//! The health-pack manager. It tracks the single live health pack by
//! entity id: when its clock expires during play it deletes the previous
//! pack, spawns a replacement at a random position through the deferred
//! buffer and remembers the new id; between spawns it checks the pack
//! against every player and queues it for deletion when one touches it.
//! A stale id — a pack already removed — is treated as absent, never as
//! an error.

use vstd::prelude::*;

use crate::aabb::AABB;
use crate::command::Command;
use crate::component::{Collider, ColliderTag, Display, Transform};
use crate::entity::Entity;
use crate::math::{Vec2Fx, UNIT};
use crate::resource::{GameState, DT_LIMIT_MS};
use crate::rng::rand_i64;
use crate::system::player_collision_system::{spec_world_box, world_box};
use crate::world::World;

verus! {

/// Milliseconds between health-pack replacements.
pub const REPAIR_PACK_TIMEOUT_MS: i64 = 5000;

/// The three mutations that materialize one health pack `p` at position
/// `(px, py)`: a forty-unit transform, the pack sprite, and a
/// health-tagged unit collider.
pub open spec fn spec_pack_cmds(p: Entity, px: i64, py: i64) -> Seq<Command> {
    seq![
        Command::InsertTransform(
            p,
            Transform {
                position: Vec2Fx { x: px, y: py },
                rotation: 0,
                scale: Vec2Fx { x: (40 * UNIT) as i64, y: (40 * UNIT) as i64 },
            },
        ),
        Command::InsertDisplay(p, Display { sprite_idx: 1 }),
        Command::InsertCollider(
            p,
            Collider { tag: ColliderTag::Health, bounding_box: AABB::unit_spec() },
        ),
    ]
}

/// One queued pack deletion per player (in player-slot order) whose world
/// box overlaps the pack's box, over the first `i` player slots.
pub open spec fn spec_pack_hits(w0: World, pack: Entity, pbox: AABB, i: int) -> Seq<Command>
    decreases i,
{
    if i <= 0 {
        Seq::<Command>::empty()
    } else {
        spec_pack_hits(w0, pack, pbox, i - 1) + match w0.players.spec_entry_at(i - 1) {
            Some((pe, _)) => if w0.transforms.spec_get(pe) is Some && w0.colliders.spec_get(pe)
                is Some && spec_world_box(
                w0.colliders.spec_get(pe)->0,
                w0.transforms.spec_get(pe)->0,
            ).spec_intersect(pbox) {
                seq![Command::DeleteEntity(pack)]
            } else {
                Seq::<Command>::empty()
            },
            None => Seq::<Command>::empty(),
        }
    }
}

/// Spawns and retires the single tracked health pack.
pub struct RepairPackManagerSystem {
    /// Clock reset value, milliseconds.
    pub spawn_timeout: i64,
    /// Time left until the next replacement, milliseconds.
    pub spawn_clock: i64,
    /// The last spawned, possibly still-live pack.
    pub active_entity: Option<Entity>,
}

impl RepairPackManagerSystem {
    /// The clock stays within one tick below zero and never above its
    /// reset value; the reset value is bounded.
    pub open spec fn wf(self) -> bool {
        &&& 0 <= self.spawn_timeout <= 100_000
        &&& -(DT_LIMIT_MS as i64) <= self.spawn_clock <= self.spawn_timeout
    }
}

impl Default for RepairPackManagerSystem {
    /// A pack every five seconds, clock due immediately, nothing tracked.
    fn default() -> (r: RepairPackManagerSystem)
        ensures
            r.spawn_timeout == REPAIR_PACK_TIMEOUT_MS,
            r.spawn_clock == 0,
            r.active_entity is None,
            r.wf(),
    {
        RepairPackManagerSystem {
            spawn_timeout: REPAIR_PACK_TIMEOUT_MS,
            spawn_clock: 0,
            active_entity: None,
        }
    }
}

/// What one pack-manager tick does, as a relation between the system
/// state and world before (`s0`, `w0`) and after (`s1`, `w1`);
/// `RepairPackManagerSystem::run` ensures exactly this.
pub open spec fn spec_repair_pack_step(
    s0: RepairPackManagerSystem,
    s1: RepairPackManagerSystem,
    w0: World,
    w1: World,
) -> bool {
    &&& w1.inv()
    &&& s1.wf()
    &&& s1.spawn_timeout == s0.spawn_timeout
    &&& match w0.game_state {
            GameState::GameStatePlay { .. } => {
                if s0.spawn_clock - w0.delta_time.0 < 0 {
                    let pre = w0.lazy.spec_commands() + (match s0.active_entity {
                        Some(a) => seq![Command::DeleteEntity(a)],
                        None => Seq::<Command>::empty(),
                    });
                    &&& s1.spawn_clock == s0.spawn_timeout
                    &&& if w0.window_size.0 > 0 && w0.window_size.1 > 0 {
                        spec_pack_spawned_state(w0, w1, pre, s1.active_entity)
                    } else {
                        &&& w1.lazy.spec_commands() == pre
                        &&& w1.entities == w0.entities
                        &&& s1.active_entity is None
                    }
                } else {
                    &&& s1.spawn_clock == s0.spawn_clock - w0.delta_time.0
                    &&& w1.entities == w0.entities
                    &&& match s0.active_entity {
                        None => w1.lazy == w0.lazy && s1.active_entity
                            is None,
                        Some(a) => {
                            match (
                                w0.colliders.spec_get(a),
                                w0.transforms.spec_get(a),
                            ) {
                                (Some(pc), Some(pt)) => {
                                    let hits = spec_pack_hits(
                                        w0,
                                        a,
                                        spec_world_box(pc, pt),
                                        w0.players.spec_slot_count() as int,
                                    );
                                    &&& w1.lazy.spec_commands() == w0.lazy.spec_commands()
                                        + hits
                                    &&& s1.active_entity == (if hits.len() > 0 {
                                        None::<Entity>
                                    } else {
                                        Some(a)
                                    })
                                },
                                _ => {
                                    &&& w1.lazy == w0.lazy
                                    &&& s1.active_entity is None
                                },
                            }
                        },
                    }
                }
            },
            GameState::GameStateEnd {} => {
                &&& s1.spawn_clock == s0.spawn_clock
                &&& w1.entities == w0.entities
                &&& s1.active_entity is None
                &&& w1.lazy.spec_commands() == w0.lazy.spec_commands() + (
                match s0.active_entity {
                    Some(a) => seq![Command::DeleteEntity(a)],
                    None => Seq::<Command>::empty(),
                })
            },
            GameState::GameStateInit {} => {
                &&& s1.spawn_clock == s0.spawn_clock
                &&& s1.active_entity == s0.active_entity
                &&& w1.lazy == w0.lazy
                &&& w1.entities == w0.entities
            },
        }
    &&& w1.entities.spec_slot_total() <= w0.entities.spec_slot_total() + 1
    &&& w1.transforms == w0.transforms
    &&& w1.velocities == w0.velocities
    &&& w1.displays == w0.displays
    &&& w1.players == w0.players
    &&& w1.colliders == w0.colliders
    &&& w1.lifetimes == w0.lifetimes
    &&& w1.spinners == w0.spinners
    &&& w1.delta_time == w0.delta_time
    &&& w1.window_size == w0.window_size
    &&& w1.game_state == w0.game_state
    &&& w1.scene_state == w0.scene_state
    &&& w1.keyboard_events == w0.keyboard_events
    &&& w1.window_events == w0.window_events
}

impl RepairPackManagerSystem {
    /// One tick of pack management.
    ///
    /// During play the clock counts down. When it expires, the previous
    /// pack (if tracked) is queued for deletion and — window permitting —
    /// a fresh pack is spawned and tracked. Otherwise, a tracked pack
    /// whose transform and collider are still present is tested against
    /// every player: each overlap queues its deletion and the tracking is
    /// dropped; a pack whose components are gone is dropped from tracking
    /// silently. On the end screen a tracked pack is queued for deletion.
    /// Nothing else in the world changes.
    pub fn run(&mut self, w: &mut World)
        requires
            old(w).inv(),
            old(self).wf(),
            old(w).entities.spec_slot_total() < usize::MAX,
        ensures
            spec_repair_pack_step(*old(self), *final(self), *old(w), *final(w)),
    {
        match w.game_state {
            GameState::GameStatePlay { .. } => {
                let dt = w.delta_time.0;
                self.spawn_clock = self.spawn_clock - dt as i64;
                if self.spawn_clock < 0 {
                    match self.active_entity {
                        Some(a) => {
                            w.lazy.push(Command::DeleteEntity(a));
                            self.active_entity = None;
                        },
                        None => {},
                    }
                    let ghost pre = w.lazy.spec_commands();
                    proof {
                        assert(pre =~= old(w).lazy.spec_commands() + (
                        match old(self).active_entity {
                            Some(a) => seq![Command::DeleteEntity(a)],
                            None => Seq::<Command>::empty(),
                        }));
                    }
                    let ww = w.window_size.0;
                    let hh = w.window_size.1;
                    if ww > 0 && hh > 0 {
                        let p = w.entities.create();
                        let third_w: i64 = (ww as i64) * UNIT / 3;
                        let third_h: i64 = (hh as i64) * UNIT / 3;
                        let px = rand_i64(-third_w, third_w);
                        let py = rand_i64(-third_h, third_h);
                        w.lazy.push(
                            Command::InsertTransform(
                                p,
                                Transform {
                                    position: Vec2Fx { x: px, y: py },
                                    rotation: 0,
                                    scale: Vec2Fx { x: 40 * UNIT, y: 40 * UNIT },
                                },
                            ),
                        );
                        w.lazy.push(Command::InsertDisplay(p, Display { sprite_idx: 1 }));
                        w.lazy.push(Command::InsertCollider(p, Collider::new(ColliderTag::Health)));
                        self.active_entity = Some(p);
                        proof {
                            assert(w.lazy.spec_commands() =~= pre + spec_pack_cmds(p, px, py));
                        }
                    }
                    self.spawn_clock = self.spawn_timeout;
                } else {
                    match self.active_entity {
                        Some(a) => {
                            let pc_opt = match w.colliders.get(a) {
                                Some(c_ref) => Some(*c_ref),
                                None => None,
                            };
                            let pt_opt = match w.transforms.get(a) {
                                Some(t_ref) => Some(*t_ref),
                                None => None,
                            };
                            match (pc_opt, pt_opt) {
                                (Some(pc), Some(pt)) => {
                                    let pack_box = world_box(&pc, &pt);
                                    let mut deleted = false;
                                    let n = w.players.slot_count();
                                    let mut i: usize = 0;
                                    while i < n
                                        invariant
                                            w.inv(),
                                            old(w).inv(),
                                            n == w.players.spec_slot_count(),
                                            0 <= i <= n,
                                            pack_box.wf(),
                                            pack_box == spec_world_box(pc, pt),
                                            w.lazy.spec_commands() == old(w).lazy.spec_commands()
                                                + spec_pack_hits(*old(w), a, pack_box, i as int),
                                            deleted == (spec_pack_hits(
                                                *old(w),
                                                a,
                                                pack_box,
                                                i as int,
                                            ).len() > 0),
                                            w.entities == old(w).entities,
                                            w.transforms == old(w).transforms,
                                            w.velocities == old(w).velocities,
                                            w.displays == old(w).displays,
                                            w.players == old(w).players,
                                            w.colliders == old(w).colliders,
                                            w.lifetimes == old(w).lifetimes,
                                            w.spinners == old(w).spinners,
                                            w.delta_time == old(w).delta_time,
                                            w.window_size == old(w).window_size,
                                            w.game_state == old(w).game_state,
                                            w.scene_state == old(w).scene_state,
                                            w.keyboard_events == old(w).keyboard_events,
                                            w.window_events == old(w).window_events,
                                        decreases n - i,
                                    {
                                        match w.players.entry_at(i) {
                                            Some((pe, _)) => {
                                                let plt_opt = match w.transforms.get(pe) {
                                                    Some(t_ref) => Some(*t_ref),
                                                    None => None,
                                                };
                                                let plc_opt = match w.colliders.get(pe) {
                                                    Some(c_ref) => Some(*c_ref),
                                                    None => None,
                                                };
                                                match (plt_opt, plc_opt) {
                                                    (Some(plt), Some(plc)) => {
                                                        let player_box = world_box(&plc, &plt);
                                                        if player_box.intersect(&pack_box) {
                                                            w.lazy.push(
                                                                Command::DeleteEntity(a),
                                                            );
                                                            deleted = true;
                                                        }
                                                    },
                                                    _ => {},
                                                }
                                            },
                                            None => {},
                                        }
                                        proof {
                                            assert(w.lazy.spec_commands() =~= old(
                                                w,
                                            ).lazy.spec_commands() + spec_pack_hits(
                                                *old(w),
                                                a,
                                                pack_box,
                                                i as int + 1,
                                            ));
                                        }
                                        i = i + 1;
                                    }
                                    if deleted {
                                        self.active_entity = None;
                                    }
                                },
                                _ => {
                                    self.active_entity = None;
                                },
                            }
                        },
                        None => {},
                    }
                }
            },
            GameState::GameStateEnd {} => {
                match self.active_entity {
                    Some(a) => {
                        w.lazy.push(Command::DeleteEntity(a));
                        self.active_entity = None;
                        proof {
                            assert(w.lazy.spec_commands() =~= old(w).lazy.spec_commands()
                                + seq![Command::DeleteEntity(a)]);
                        }
                    },
                    None => {
                        proof {
                            assert(w.lazy.spec_commands() =~= old(w).lazy.spec_commands()
                                + Seq::<Command>::empty());
                        }
                    },
                }
            },
            GameState::GameStateInit {} => {},
        }
    }
}

/// `spec_pack_spawned` together with the tracking outcome: the system now
/// tracks exactly the spawned entity.
pub open spec fn spec_pack_spawned_state(
    w0: World,
    w1: World,
    pre: Seq<Command>,
    active: Option<Entity>,
) -> bool {
    exists|p: Entity, px: i64, py: i64|
        {
            &&& !w0.entities.spec_is_live(p)
            &&& w1.entities.spec_is_live(p)
            &&& (forall|e: Entity|
                e != p ==> w1.entities.spec_is_live(e) == w0.entities.spec_is_live(e))
            &&& -((w0.window_size.0 * UNIT) as int) / 3 <= px < ((w0.window_size.0 * UNIT) as int)
                / 3
            &&& -((w0.window_size.1 * UNIT) as int) / 3 <= py < ((w0.window_size.1 * UNIT) as int)
                / 3
            &&& w1.lazy.spec_commands() == pre + #[trigger] spec_pack_cmds(p, px, py)
            &&& active == Some(p)
        }
}

} // verus!
