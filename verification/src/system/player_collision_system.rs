//! Collision resolution. Every entity holding a player, a transform and a
//! collider is tested for overlap against every other entity holding a
//! transform and a collider — self-exclusion is by entity identity, never
//! by collider value, so distinct entities with identical colliders still
//! collide. Overlapping an asteroid drains health by a fixed rate times
//! the tick, clamped at zero; overlapping a health pack heals by a fixed
//! amount, clamped at full health, and queues the pack for deletion.

use vstd::prelude::*;

use crate::aabb::AABB;
use crate::command::Command;
use crate::component::{Collider, ColliderTag, Player, Transform, HEALTH_MAX, SCALE_LIMIT};
use crate::entity::Entity;
use crate::math::lemma_abs_mul_le;
use crate::world::{lemma_unique_component_slot, World};

verus! {

/// Health drained per second of asteroid contact, micro-units; its
/// per-millisecond contribution is `COLLISION_DAMAGE_PER_MS`.
pub const COLLISION_DAMAGE_RATE: i64 = 50_000_000;

/// `COLLISION_DAMAGE_RATE / 1000`: health drained per millisecond of
/// contact (the division is exact).
pub const COLLISION_DAMAGE_PER_MS: i64 = 50_000;

/// Health restored by one health pack, micro-units (a quarter of full
/// health), clamped at full health.
pub const HEAL_AMOUNT: i64 = 25_000_000;

/// The world-space box of a collider on an entity: the untransformed box
/// translated by the entity's position and scaled by its scale.
pub open spec fn spec_world_box(c: Collider, t: Transform) -> AABB {
    c.bounding_box.spec_translate(t.position).spec_scale(t.scale)
}

/// The player's health after testing the first `j` collider slots of `w0`
/// against the player's world box `pbox`: each overlapping asteroid drains
/// `COLLISION_DAMAGE_PER_MS * dt` (clamped at zero), each overlapping
/// health pack heals `HEAL_AMOUNT` (clamped at full).
pub open spec fn spec_health_after(w0: World, pe: Entity, pbox: AABB, h: int, j: int) -> int
    decreases j,
{
    if j <= 0 {
        h
    } else {
        let prev = spec_health_after(w0, pe, pbox, h, j - 1);
        match w0.colliders.spec_entry_at(j - 1) {
            Some((oe, oc)) => if oe != pe {
                match w0.transforms.spec_get(oe) {
                    Some(ot) => if pbox.spec_intersect(spec_world_box(oc, ot)) {
                        match oc.tag {
                            ColliderTag::Asteroid => {
                                let d = prev - COLLISION_DAMAGE_PER_MS * w0.delta_time.0;
                                if d < 0 {
                                    0
                                } else {
                                    d
                                }
                            },
                            ColliderTag::Health => {
                                let g = prev + HEAL_AMOUNT;
                                if g > HEALTH_MAX {
                                    HEALTH_MAX as int
                                } else {
                                    g
                                }
                            },
                            ColliderTag::Player => prev,
                        }
                    } else {
                        prev
                    },
                    None => prev,
                }
            } else {
                prev
            },
            None => prev,
        }
    }
}

/// The deletions queued while testing the first `j` collider slots: one
/// delete for each overlapping health pack, in slot order.
pub open spec fn spec_consumed_cmds(w0: World, pe: Entity, pbox: AABB, j: int) -> Seq<Command>
    decreases j,
{
    if j <= 0 {
        Seq::<Command>::empty()
    } else {
        spec_consumed_cmds(w0, pe, pbox, j - 1) + match w0.colliders.spec_entry_at(j - 1) {
            Some((oe, oc)) => if oe != pe && w0.transforms.spec_get(oe) is Some
                && pbox.spec_intersect(
                spec_world_box(oc, w0.transforms.spec_get(oe)->0),
            ) && oc.tag == ColliderTag::Health {
                seq![Command::DeleteEntity(oe)]
            } else {
                Seq::<Command>::empty()
            },
            None => Seq::<Command>::empty(),
        }
    }
}

/// Whether player slot `i` takes part in collision at all: it holds a
/// player and the entity also holds a transform and a collider.
pub open spec fn spec_collidable(w0: World, i: int) -> bool {
    match w0.players.spec_entry_at(i) {
        Some((pe, _)) => w0.transforms.spec_get(pe) is Some && w0.colliders.spec_get(pe) is Some,
        None => false,
    }
}

/// The player component of `e` after the first `i` player slots resolved
/// their collisions.
pub open spec fn spec_players_collided(w0: World, i: int, e: Entity) -> Option<Player>
    decreases i,
{
    if i <= 0 {
        w0.players.spec_get(e)
    } else {
        let prev = spec_players_collided(w0, i - 1, e);
        match w0.players.spec_entry_at(i - 1) {
            Some((pe, pl)) => if pe == e && spec_collidable(w0, i - 1) {
                let pt = w0.transforms.spec_get(pe)->0;
                let pc = w0.colliders.spec_get(pe)->0;
                Some(
                    Player {
                        health: spec_health_after(
                            w0,
                            pe,
                            spec_world_box(pc, pt),
                            pl.health as int,
                            w0.colliders.spec_slot_count() as int,
                        ) as i64,
                    },
                )
            } else {
                prev
            },
            None => prev,
        }
    }
}

/// The deletions queued by the first `i` player slots, in order.
pub open spec fn spec_collision_cmds(w0: World, i: int) -> Seq<Command>
    decreases i,
{
    if i <= 0 {
        Seq::<Command>::empty()
    } else {
        spec_collision_cmds(w0, i - 1) + (if spec_collidable(w0, i - 1) {
            let pe = (w0.players.spec_entry_at(i - 1)->0).0;
            let pt = w0.transforms.spec_get(pe)->0;
            let pc = w0.colliders.spec_get(pe)->0;
            spec_consumed_cmds(
                w0,
                pe,
                spec_world_box(pc, pt),
                w0.colliders.spec_slot_count() as int,
            )
        } else {
            Seq::<Command>::empty()
        })
    }
}

/// Player slots at or beyond `i` have not resolved yet.
proof fn lemma_collided_untouched(w0: World, i: int, e: Entity)
    requires
        0 <= i,
        i <= e.index,
        i <= w0.players.spec_slot_count(),
        w0.players.spec_slot_count() <= usize::MAX,
    ensures
        spec_players_collided(w0, i, e) == w0.players.spec_get(e),
    decreases i,
{
    if i > 0 {
        w0.players.lemma_entry_index(i - 1);
        lemma_collided_untouched(w0, i - 1, e);
    }
}

/// The world-space box of a collider under a transform, well formed for
/// the overlap arithmetic.
pub fn world_box(c: &Collider, t: &Transform) -> (r: AABB)
    requires
        c.wf(),
        t.wf(),
    ensures
        r == spec_world_box(*c, *t),
        r.wf(),
{
    proof {
        lemma_abs_mul_le(
            c.bounding_box.size.x as int,
            t.scale.x as int,
            SCALE_LIMIT as int,
            SCALE_LIMIT as int,
        );
        lemma_abs_mul_le(
            c.bounding_box.size.y as int,
            t.scale.y as int,
            SCALE_LIMIT as int,
            SCALE_LIMIT as int,
        );
    }
    let shifted = c.bounding_box.translate(t.position);
    let r = shifted.scale(t.scale);
    proof {
        crate::math::lemma_div_le_num((shifted.size.x * t.scale.x) as int, crate::math::UNIT as int);
        crate::math::lemma_div_le_num((shifted.size.y * t.scale.y) as int, crate::math::UNIT as int);
    }
    r
}

/// Resolves player collisions against every collider-bearing entity.
#[derive(Default)]
pub struct PlayerCollisionSystem {}

/// What one collision pass does, as a relation between the world before
/// (`w0`) and after (`w1`); `PlayerCollisionSystem::run` ensures exactly
/// this.
pub open spec fn spec_player_collision_step(w0: World, w1: World) -> bool {
    &&& w1.inv()
    &&& forall|e: Entity|
            (#[trigger] w1.players.spec_get(e)) == spec_players_collided(
                w0,
                w0.players.spec_slot_count() as int,
                e,
            )
    &&& w1.lazy.spec_commands() == w0.lazy.spec_commands() + spec_collision_cmds(
            w0,
            w0.players.spec_slot_count() as int,
        )
    &&& w1.entities == w0.entities
    &&& w1.transforms == w0.transforms
    &&& w1.velocities == w0.velocities
    &&& w1.displays == w0.displays
    &&& w1.colliders == w0.colliders
    &&& w1.lifetimes == w0.lifetimes
    &&& w1.spinners == w0.spinners
    &&& w1.delta_time == w0.delta_time
    &&& w1.window_size == w0.window_size
    &&& w1.game_state == w0.game_state
    &&& w1.scene_state == w0.scene_state
    &&& w1.keyboard_events == w0.keyboard_events
    &&& w1.window_events == w0.window_events
}

impl PlayerCollisionSystem {
    /// For every entity with a player, a transform and a collider, test
    /// its world box against every other transform-and-collider entity —
    /// excluded by entity identity, not collider value — and fold the
    /// overlaps into its health: asteroids drain, health packs heal and
    /// are queued for deletion. Nothing else in the world changes.
    pub fn run(&mut self, w: &mut World)
        requires
            old(w).inv(),
        ensures
            spec_player_collision_step(*old(w), *final(w)),
    {
        let n = w.players.slot_count();
        let m = w.colliders.slot_count();
        let dt = w.delta_time.0;
        let mut i: usize = 0;
        while i < n
            invariant
                w.inv(),
                old(w).inv(),
                n == w.players.spec_slot_count(),
                n == old(w).players.spec_slot_count(),
                m == w.colliders.spec_slot_count(),
                dt == old(w).delta_time.0,
                0 <= i <= n,
                forall|e: Entity|
                    (#[trigger] w.players.spec_get(e)) == spec_players_collided(
                        *old(w),
                        i as int,
                        e,
                    ),
                forall|j: int|
                    i <= j < n ==> (#[trigger] w.players.spec_entry_at(j)) == old(
                        w,
                    ).players.spec_entry_at(j),
                w.lazy.spec_commands() == old(w).lazy.spec_commands() + spec_collision_cmds(
                    *old(w),
                    i as int,
                ),
                w.entities == old(w).entities,
                w.transforms == old(w).transforms,
                w.velocities == old(w).velocities,
                w.displays == old(w).displays,
                w.colliders == old(w).colliders,
                w.lifetimes == old(w).lifetimes,
                w.spinners == old(w).spinners,
                w.delta_time == old(w).delta_time,
                w.window_size == old(w).window_size,
                w.game_state == old(w).game_state,
                w.scene_state == old(w).scene_state,
                w.keyboard_events == old(w).keyboard_events,
                w.window_events == old(w).window_events,
            decreases n - i,
        {
            let entry = match w.players.entry_at(i) {
                Some((pe, pl_ref)) => Some((pe, *pl_ref)),
                None => None,
            };
            match entry {
                Some((pe, pl)) => {
                    proof {
                        lemma_collided_untouched(*old(w), i as int, pe);
                    }
                    let pt_opt = match w.transforms.get(pe) {
                        Some(t_ref) => Some(*t_ref),
                        None => None,
                    };
                    let pc_opt = match w.colliders.get(pe) {
                        Some(c_ref) => Some(*c_ref),
                        None => None,
                    };
                    match (pt_opt, pc_opt) {
                        (Some(pt), Some(pc)) => {
                            let pbox = world_box(&pc, &pt);
                            let ghost cmds_before_inner = w.lazy.spec_commands();
                            let ghost players_before_inner = w.players;
                            let mut health: i64 = pl.health;
                            let mut j: usize = 0;
                            while j < m
                                invariant
                                    w.inv(),
                                    old(w).inv(),
                                    m == w.colliders.spec_slot_count(),
                                    dt == old(w).delta_time.0,
                                    0 <= j <= m,
                                    0 <= health <= HEALTH_MAX,
                                    pbox.wf(),
                                    pbox == spec_world_box(pc, pt),
                                    health == spec_health_after(
                                        *old(w),
                                        pe,
                                        pbox,
                                        pl.health as int,
                                        j as int,
                                    ),
                                    w.lazy.spec_commands() == cmds_before_inner
                                        + spec_consumed_cmds(*old(w), pe, pbox, j as int),
                                    w.entities == old(w).entities,
                                    w.transforms == old(w).transforms,
                                    w.velocities == old(w).velocities,
                                    w.displays == old(w).displays,
                                    w.players == players_before_inner,
                                    w.colliders == old(w).colliders,
                                    w.lifetimes == old(w).lifetimes,
                                    w.spinners == old(w).spinners,
                                    w.delta_time == old(w).delta_time,
                                    w.window_size == old(w).window_size,
                                    w.game_state == old(w).game_state,
                                    w.scene_state == old(w).scene_state,
                                    w.keyboard_events == old(w).keyboard_events,
                                    w.window_events == old(w).window_events,
                                decreases m - j,
                            {
                                match w.colliders.entry_at(j) {
                                    Some((oe, oc_ref)) => {
                                        let oc = *oc_ref;
                                        if oe.index != pe.index || oe.generation != pe.generation {
                                            match w.transforms.get(oe) {
                                                Some(ot_ref) => {
                                                    let ot = *ot_ref;
                                                    let obox = world_box(&oc, &ot);
                                                    if pbox.intersect(&obox) {
                                                        match oc.tag {
                                                            ColliderTag::Asteroid => {
                                                                let d = health
                                                                    - COLLISION_DAMAGE_PER_MS * (
                                                                dt as i64);
                                                                health = if d < 0 {
                                                                    0
                                                                } else {
                                                                    d
                                                                };
                                                            },
                                                            ColliderTag::Health => {
                                                                let g = health + HEAL_AMOUNT;
                                                                health = if g > HEALTH_MAX {
                                                                    HEALTH_MAX
                                                                } else {
                                                                    g
                                                                };
                                                                w.lazy.push(
                                                                    Command::DeleteEntity(oe),
                                                                );
                                                            },
                                                            ColliderTag::Player => {},
                                                        }
                                                    }
                                                },
                                                None => {},
                                            }
                                        }
                                    },
                                    None => {},
                                }
                                proof {
                                    assert(w.lazy.spec_commands() =~= cmds_before_inner
                                        + spec_consumed_cmds(*old(w), pe, pbox, j as int + 1));
                                }
                                j = j + 1;
                            }
                            proof {
                                lemma_unique_component_slot(*w, pe);
                            }
                            w.players.insert(pe, Player { health });
                            proof {
                                assert(w.lazy.spec_commands() =~= old(w).lazy.spec_commands()
                                    + spec_collision_cmds(*old(w), i as int + 1));
                            }
                        },
                        _ => {
                            proof {
                                assert(w.lazy.spec_commands() =~= old(w).lazy.spec_commands()
                                    + spec_collision_cmds(*old(w), i as int + 1));
                            }
                        },
                    }
                },
                None => {
                    proof {
                        assert(w.lazy.spec_commands() =~= old(w).lazy.spec_commands()
                            + spec_collision_cmds(*old(w), i as int + 1));
                    }
                },
            }
            i = i + 1;
        }
    }
}

} // verus!
